//! Progress accounting for one batch.
//!
//! The tracker holds the completed-item count for a batch. Every item
//! contributes exactly one completion, whether it was skipped or generated,
//! so `completed` grows by one per item, never shrinks, and never exceeds
//! `total`. Each completion yields a snapshot to hand to the observer, so
//! the observer sees exactly `total` progress events per batch.

use vstd::prelude::*;
use vstd::string::StringExecFns;

verus! {

/// A snapshot emitted to the observer after one item completes.
pub struct ProgressEvent {
    /// Number of items in the batch.
    pub total: usize,
    /// Number of items completed so far, this one included.
    pub completed: usize,
    /// Identifier of the item that just completed.
    pub current_item: String,
}

/// The event emitted to the observer once a whole batch has resolved.
pub struct CompletionEvent {
    /// Number of items the batch held.
    pub total: usize,
}

/// The batch's progress state: completed count against a fixed total.
pub struct ProgressTracker {
    /// Number of items in the batch; fixed at construction.
    pub total: usize,
    /// Number of items completed so far.
    pub completed: usize,
    /// Identifier of the most recently completed item.
    pub current_item: String,
}

impl ProgressTracker {
    /// Completed items never exceed the total.
    pub open spec fn wf(self) -> bool {
        self.completed <= self.total
    }

    /// A fresh tracker with nothing completed.
    pub fn new(total: usize) -> (t: ProgressTracker)
        ensures
            t.wf(),
            t.total == total,
            t.completed == 0,
    {
        ProgressTracker { total, completed: 0, current_item: String::new() }
    }

    /// Records that `item` completed: the count grows by exactly one, and
    /// the returned snapshot carries the new count for emission.
    pub fn record_completion(&mut self, item: &str) -> (ev: ProgressEvent)
        requires
            old(self).wf(),
            old(self).completed < old(self).total,
        ensures
            final(self).wf(),
            final(self).total == old(self).total,
            final(self).completed == old(self).completed + 1,
            final(self).current_item@ == item@,
            ev.total == old(self).total,
            ev.completed == old(self).completed + 1,
            ev.current_item@ == item@,
    {
        self.completed = self.completed + 1;
        self.current_item = String::from_str(item);
        ProgressEvent {
            total: self.total,
            completed: self.completed,
            current_item: String::from_str(item),
        }
    }
}

} // verus!
