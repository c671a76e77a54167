//! Counting trials and the trials that were hits.

use vstd::prelude::*;

verus! {

/// A running count of trials and of the trials that were hits.
///
/// The count of hits never exceeds the count of trials.
pub struct Tally {
    trials: u64,
    hits: u64,
}

impl Tally {
    #[verifier::type_invariant]
    spec fn bounded(self) -> bool {
        self.hits <= self.trials
    }

    /// Number of trials recorded.
    pub closed spec fn spec_trials(&self) -> u64 {
        self.trials
    }

    /// Number of hits recorded.
    pub closed spec fn spec_hits(&self) -> u64 {
        self.hits
    }

    /// A tally of nothing.
    pub fn new() -> (tally: Tally)
        ensures
            tally.trials() == 0,
            tally.hits() == 0,
    {
        Tally { trials: 0, hits: 0 }
    }

    /// Number of trials recorded.
    #[verifier::when_used_as_spec(spec_trials)]
    pub fn trials(&self) -> (n: u64)
        ensures
            n == self.spec_trials(),
    {
        self.trials
    }

    /// Number of hits recorded; never more than the number of trials.
    #[verifier::when_used_as_spec(spec_hits)]
    pub fn hits(&self) -> (n: u64)
        ensures
            n == self.spec_hits(),
            n <= self.spec_trials(),
    {
        proof {
            use_type_invariant(self);
        }
        self.hits
    }

    /// Records the outcome of one more trial.
    pub fn record(&mut self, hit: bool)
        requires
            old(self).trials() < u64::MAX,
        ensures
            final(self).trials() == old(self).trials() + 1,
            final(self).hits() == old(self).hits() + if hit { 1int } else { 0int },
    {
        proof {
            use_type_invariant(&*self);
        }
        self.trials = self.trials + 1;
        if hit {
            self.hits = self.hits + 1;
        }
    }
}

} // verus!
