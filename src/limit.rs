use vstd::prelude::*;

verus! {

/// How many samples the loop takes.
#[derive(Clone, Copy, Debug, PartialEq, Eq, Structural)]
pub enum RunLimit {
    /// Exactly this many samples, then a normal stop.
    Bounded(u64),
    /// Sample until the process is killed from outside.
    Unbounded,
}

/// The flag value that asks for an unbounded run.
pub const UNBOUNDED_FLAG: i64 = -1;

impl RunLimit {
    /// The limit that a textual run count flag stands for: `-1` is
    /// unbounded, a non-negative count is exact, and any other negative
    /// count allows no sample at all.
    pub open spec fn from_flag_spec(runs: i64) -> RunLimit {
        if runs == UNBOUNDED_FLAG {
            RunLimit::Unbounded
        } else if runs >= 0 {
            RunLimit::Bounded(runs as u64)
        } else {
            RunLimit::Bounded(0)
        }
    }

    /// Whether a loop that has completed `done` samples takes another one.
    pub open spec fn allows_spec(self, done: nat) -> bool {
        match self {
            RunLimit::Bounded(n) => done < n,
            RunLimit::Unbounded => true,
        }
    }

    pub fn from_flag(runs: i64) -> (r: RunLimit)
        ensures
            r == Self::from_flag_spec(runs),
    {
        if runs == UNBOUNDED_FLAG {
            RunLimit::Unbounded
        } else if runs >= 0 {
            RunLimit::Bounded(runs as u64)
        } else {
            RunLimit::Bounded(0)
        }
    }

    pub fn allows(&self, done: u64) -> (r: bool)
        ensures
            r == self.allows_spec(done as nat),
    {
        match self {
            RunLimit::Bounded(n) => done < *n,
            RunLimit::Unbounded => true,
        }
    }
}

} // verus!
