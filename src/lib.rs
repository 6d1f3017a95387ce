//! Orchestration logic of a daemon that samples network speed with an
//! outside measurement tool and keeps each sample in a local SQL store.
//!
//! The library holds every decision the daemon makes: how the run count
//! flag is read, which mode is selected, when the sampling loop measures,
//! stores, pauses or stops, how a tool report becomes a record, and how
//! stored rows are ordered and rendered. Process spawning, sleeping and the
//! store itself are driven by the program around it.
use vstd::prelude::*;

pub mod limit;
pub mod mode;
pub mod report;
pub mod rows;
pub mod sample;
pub mod sampler;
pub mod store;
pub mod timestamp;

verus! {

} // verus!
