//! Failure aggregation: every parallel stage collects all per-item failures
//! rather than aborting on the first, and the pipeline as a whole fails only
//! after all items have been attempted — even when the container itself was
//! already fully and validly written.

use vstd::prelude::*;

verus! {

/// The record of one per-item failure: the path (or stage) that failed and
/// the underlying cause. Created at the point of first failure, never
/// mutated afterwards.
pub struct FailureRecord {
    pub path: String,
    pub cause: String,
}

impl FailureRecord {
    pub open spec fn view(&self) -> (Seq<char>, Seq<char>) {
        (self.path@, self.cause@)
    }
}

impl Clone for FailureRecord {
    fn clone(&self) -> (r: Self)
        ensures
            r@ == self@,
    {
        FailureRecord { path: self.path.clone(), cause: self.cause.clone() }
    }
}

/// The paths of a sequence of failure records, in order.
pub open spec fn failure_paths(fails: Seq<(Seq<char>, Seq<char>)>) -> Seq<Seq<char>> {
    fails.map_values(|f: (Seq<char>, Seq<char>)| f.0)
}

/// An accumulating result for one parallel stage: how many items succeeded
/// and, in arrival order, the record of every item that failed.
pub struct FailureLog {
    pub successes: u64,
    pub failures: Vec<FailureRecord>,
}

impl FailureLog {
    pub open spec fn view(&self) -> Seq<(Seq<char>, Seq<char>)> {
        self.failures@.map_values(|f: FailureRecord| f@)
    }

    /// Whether the stage as a whole succeeded: no item may have failed.
    pub open spec fn spec_ok(&self) -> bool {
        self@.len() == 0
    }

    pub fn new() -> (r: FailureLog)
        ensures
            r@ == Seq::<(Seq<char>, Seq<char>)>::empty(),
            r.successes == 0,
    {
        let r = FailureLog { successes: 0, failures: Vec::new() };
        proof {
            assert(r@ =~= Seq::<(Seq<char>, Seq<char>)>::empty());
        }
        r
    }

    /// Records one successful item. The count saturates rather than wrap:
    /// it only feeds reporting, never a correctness decision.
    pub fn record_success(&mut self)
        ensures
            final(self)@ == old(self)@,
            final(self).successes == if old(self).successes == u64::MAX {
                u64::MAX
            } else {
                (old(self).successes + 1) as u64
            },
    {
        if self.successes < u64::MAX {
            self.successes = self.successes + 1;
        }
    }

    /// Appends the record of one failed item; earlier records are kept.
    pub fn record_failure(&mut self, rec: FailureRecord)
        ensures
            final(self)@ == old(self)@.push(rec@),
            final(self).successes == old(self).successes,
    {
        let ghost prev = self@;
        self.failures.push(rec);
        proof {
            assert(self@ =~= prev.push(self.failures@.last()@));
        }
    }

    /// True exactly when no item failed.
    pub fn is_ok(&self) -> (r: bool)
        ensures
            r == self.spec_ok(),
    {
        self.failures.len() == 0
    }
}

} // verus!
