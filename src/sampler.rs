use vstd::prelude::*;
use crate::limit::RunLimit;
use crate::sample::{Measurement, SampleError};

verus! {

/// What the loop does at the start of a cycle.
#[derive(Clone, Copy, Debug, PartialEq, Eq, Structural)]
pub enum Step {
    /// Run the measurement tool once and hand its output back.
    Measure,
    /// The run count is reached: close the store and end normally.
    Stop,
}

/// What the loop does with one attempt's outcome.
pub enum Outcome<N> {
    /// Insert this record into the store, then report it stored.
    Store(Measurement<N>),
    /// End the whole run at once with this error; nothing is inserted.
    Abort(SampleError),
}

/// The decisions of the sampling loop: it measures while the run limit
/// allows, stores each good sample, pauses for the interval after each
/// stored sample, and aborts on the first bad one.
pub struct Sampler {
    pub limit: RunLimit,
    pub interval_ms: u64,
    /// The number of samples stored so far (it stays at the largest `u64`
    /// once there, which only an unbounded run can reach).
    pub completed: u64,
}

impl Sampler {
    /// A fresh loop that has stored nothing.
    pub open spec fn initial(limit: RunLimit, interval_ms: u64) -> Sampler {
        Sampler { limit, interval_ms, completed: 0 }
    }

    /// Whether the next cycle measures.
    pub open spec fn measures(self) -> bool {
        self.limit.allows_spec(self.completed as nat)
    }

    /// The loop after one more sample was stored.
    pub open spec fn after_store(self) -> Sampler {
        Sampler {
            completed: if self.completed < u64::MAX {
                (self.completed + 1) as u64
            } else {
                self.completed
            },
            ..self
        }
    }

    pub fn new(limit: RunLimit, interval_ms: u64) -> (r: Sampler)
        ensures
            r == Sampler::initial(limit, interval_ms),
    {
        Sampler { limit, interval_ms, completed: 0 }
    }

    /// The step that starts the next cycle.
    pub fn next_step(&self) -> (r: Step)
        ensures
            r == (if self.measures() {
                Step::Measure
            } else {
                Step::Stop
            }),
    {
        if self.limit.allows(self.completed) {
            Step::Measure
        } else {
            Step::Stop
        }
    }

    /// What to do with the sample read from the tool's output: store a
    /// good one, abort on a bad one.
    pub fn on_sample<N>(&self, sample: Result<Measurement<N>, SampleError>) -> (r: Outcome<N>)
        ensures
            match sample {
                Ok(m) => r == Outcome::Store(m),
                Err(e) => r == Outcome::<N>::Abort(e),
            },
    {
        match sample {
            Ok(m) => Outcome::Store(m),
            Err(e) => Outcome::Abort(e),
        }
    }

    /// Records that a sample was stored, and gives the pause in
    /// milliseconds to sleep before the next cycle: always the configured
    /// interval.
    pub fn on_stored(&mut self) -> (pause_ms: u64)
        ensures
            *final(self) == old(self).after_store(),
            pause_ms == old(self).interval_ms,
    {
        if self.completed < u64::MAX {
            self.completed = self.completed + 1;
        }
        self.interval_ms
    }
}

/// How many times a loop in this state runs the tool within `cycles`
/// cycles, every sample being good.
pub open spec fn measured(s: Sampler, cycles: nat) -> nat
    decreases cycles,
{
    if cycles == 0 || !s.measures() {
        0
    } else {
        1 + measured(s.after_store(), (cycles - 1) as nat)
    }
}

proof fn lemma_bounded_from(s: Sampler, n: u64, cycles: nat)
    requires
        s.limit == RunLimit::Bounded(n),
        s.completed <= n,
    ensures
        measured(s, cycles) == if cycles >= n - s.completed {
            (n - s.completed) as nat
        } else {
            cycles
        },
    decreases cycles,
{
    if cycles > 0 && s.measures() {
        lemma_bounded_from(s.after_store(), n, (cycles - 1) as nat);
    }
}

/// A bounded run of `n` samples, every sample being good, runs the tool
/// exactly `n` times however many cycles it is given, and then stops.
pub proof fn lemma_bounded_run(n: u64, interval_ms: u64, cycles: nat)
    requires
        cycles >= n,
    ensures
        measured(Sampler::initial(RunLimit::Bounded(n), interval_ms), cycles) == n,
{
    lemma_bounded_from(Sampler::initial(RunLimit::Bounded(n), interval_ms), n, cycles);
}

proof fn lemma_unbounded_from(s: Sampler, cycles: nat)
    requires
        s.limit == RunLimit::Unbounded,
    ensures
        measured(s, cycles) == cycles,
    decreases cycles,
{
    if cycles > 0 {
        lemma_unbounded_from(s.after_store(), (cycles - 1) as nat);
    }
}

/// An unbounded run never stops on its own: cut off after any number of
/// cycles, it has run the tool once in each of them.
pub proof fn lemma_unbounded_run(interval_ms: u64, cycles: nat)
    ensures
        measured(Sampler::initial(RunLimit::Unbounded, interval_ms), cycles) == cycles,
{
    lemma_unbounded_from(Sampler::initial(RunLimit::Unbounded, interval_ms), cycles);
}

} // verus!
