//! The concurrency gate: a counting limiter on simultaneous external
//! generation processes.
//!
//! A `Gate` is constructed with a fixed capacity and handed to whoever
//! composes a pipeline, rather than living as hidden process-wide state, so
//! independent limiters can be instantiated at will. A permit is taken before
//! an external process starts and given back unconditionally once it ends.

use vstd::prelude::*;

verus! {

/// A counting resource limiter: at most `capacity` permits are ever out.
pub struct Gate {
    /// The fixed number of permits this limiter was created with.
    pub capacity: usize,
    /// How many permits are currently held.
    pub in_use: usize,
}

impl Gate {
    /// Permits held never exceed the capacity.
    pub open spec fn wf(self) -> bool {
        self.in_use <= self.capacity
    }

    /// Whether a permit is free to take.
    pub open spec fn has_free_slot(self) -> bool {
        self.in_use < self.capacity
    }

    /// A fresh gate with no permit out.
    pub fn new(capacity: usize) -> (g: Gate)
        ensures
            g.wf(),
            g.capacity == capacity,
            g.in_use == 0,
    {
        Gate { capacity, in_use: 0 }
    }

    /// Whether a permit is free to take, for callers deciding to acquire.
    pub fn slot_free(&self) -> (b: bool)
        ensures
            b == self.has_free_slot(),
    {
        self.in_use < self.capacity
    }

    /// Takes one permit; only callable while a slot is free.
    pub fn acquire(&mut self)
        requires
            old(self).wf(),
            old(self).has_free_slot(),
        ensures
            final(self).wf(),
            final(self).capacity == old(self).capacity,
            final(self).in_use == old(self).in_use + 1,
    {
        self.in_use = self.in_use + 1;
    }

    /// Returns one permit; only callable while some permit is out.
    pub fn release(&mut self)
        requires
            old(self).wf(),
            old(self).in_use > 0,
        ensures
            final(self).wf(),
            final(self).capacity == old(self).capacity,
            final(self).in_use == old(self).in_use - 1,
    {
        self.in_use = self.in_use - 1;
    }
}

} // verus!
