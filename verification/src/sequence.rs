//! Task-identifier allocation: a single monotonically increasing counter.
use vstd::prelude::*;

verus! {

/// The process-wide sequence counter. Every task identifier is issued from
/// it, and no other component writes it.
#[derive(Debug)]
pub struct TaskCounter {
    pub count: u64,
}

impl TaskCounter {
    /// A fresh counter starts at zero, so the first identifier issued is 0.
    pub fn new() -> (r: TaskCounter)
        ensures
            r.count == 0,
    {
        TaskCounter { count: 0 }
    }

    /// Issues the next task identifier: returns the current count and
    /// increments it by exactly one, so no two calls return the same value
    /// and the identifiers issued by a fresh counter are exactly
    /// 0, 1, 2, ... in order.
    pub fn next(&mut self) -> (r: u64)
        requires
            old(self).count < u64::MAX,
        ensures
            r == old(self).count,
            final(self).count == old(self).count + 1,
    {
        let r = self.count;
        self.count = self.count + 1;
        r
    }
}

} // verus!
