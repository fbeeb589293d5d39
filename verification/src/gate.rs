//! The bounded-parallelism primitive: a counting gate that admits at most a
//! fixed number of in-flight part operations.

use vstd::prelude::*;

verus! {

/// A counting gate with a fixed capacity. A part operation acquires one
/// permit before its network call begins and releases it when the call
/// resolves; at no point do more operations hold permits than the capacity.
#[derive(Debug, Clone, Copy, PartialEq, Eq, Structural)]
pub struct ConcurrencyGate {
    capacity: usize,
    in_flight: usize,
}

impl ConcurrencyGate {
    /// The configured bound.
    pub closed spec fn spec_capacity(self) -> int {
        self.capacity as int
    }

    /// How many permits are held.
    pub closed spec fn spec_in_flight(self) -> int {
        self.in_flight as int
    }

    /// Well-formedness: the held permits never exceed the bound.
    pub open spec fn wf(self) -> bool {
        self.spec_in_flight() <= self.spec_capacity() && self.spec_capacity() > 0
    }

    /// A gate with `capacity` permits, none held.
    pub fn new(capacity: usize) -> (g: Self)
        requires
            capacity > 0,
        ensures
            g.wf(),
            g.spec_capacity() == capacity,
            g.spec_in_flight() == 0,
    {
        ConcurrencyGate { capacity, in_flight: 0 }
    }

    /// The configured bound.
    pub fn capacity(&self) -> (r: usize)
        ensures
            r == self.spec_capacity(),
    {
        self.capacity
    }

    /// How many permits are held.
    pub fn in_flight(&self) -> (r: usize)
        ensures
            r == self.spec_in_flight(),
    {
        self.in_flight
    }

    /// Ask for a permit. Granted exactly when the bound is not yet reached;
    /// a grant raises the in-flight count by one and never past the bound.
    pub fn try_acquire(&mut self) -> (granted: bool)
        requires
            old(self).wf(),
        ensures
            final(self).wf(),
            final(self).spec_capacity() == old(self).spec_capacity(),
            granted <==> old(self).spec_in_flight() < old(self).spec_capacity(),
            granted ==> final(self).spec_in_flight() == old(self).spec_in_flight() + 1,
            !granted ==> *final(self) == *old(self),
    {
        if self.in_flight < self.capacity {
            self.in_flight = self.in_flight + 1;
            true
        } else {
            false
        }
    }

    /// Give a permit back. Requires one to be held.
    pub fn release(&mut self)
        requires
            old(self).wf(),
            old(self).spec_in_flight() > 0,
        ensures
            final(self).wf(),
            final(self).spec_capacity() == old(self).spec_capacity(),
            final(self).spec_in_flight() == old(self).spec_in_flight() - 1,
    {
        self.in_flight = self.in_flight - 1;
    }
}

} // verus!
