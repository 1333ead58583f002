use vstd::prelude::*;

verus! {

/// A change counter: bumped once per successful mutation, read by list views
/// as a signal to fetch again.
pub struct MutationTracker {
    pub version: u64,
}

impl MutationTracker {
    pub fn new() -> (r: MutationTracker)
        ensures
            r.version == 0,
    {
        MutationTracker { version: 0 }
    }

    pub fn version(&self) -> (r: u64)
        ensures
            r == self.version,
    {
        self.version
    }

    /// Notes the outcome of a mutation: the counter moves by one exactly when
    /// the mutation succeeded.
    pub fn observe<T, E>(&mut self, outcome: &Result<T, E>)
        requires
            old(self).version < u64::MAX,
        ensures
            final(self).version == old(self).version + if outcome is Ok { 1int } else { 0int },
    {
        if outcome.is_ok() {
            self.version = self.version + 1;
        }
    }
}

} // verus!
