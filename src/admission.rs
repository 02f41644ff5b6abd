//! The admission pool: a fixed number of tokens, one held by each probe in
//! flight.
use vstd::prelude::*;

verus! {

/// A counting pool of admission tokens.
pub struct Pool {
    capacity: u64,
    issued: u64,
}

/// A pool as numbers: its capacity and the tokens currently held.
pub ghost struct PoolView {
    pub capacity: nat,
    pub issued: nat,
}

impl PoolView {
    /// Capacity is positive and never exceeded.
    pub open spec fn wf(self) -> bool {
        &&& 1 <= self.capacity <= u64::MAX
        &&& self.issued <= self.capacity
    }
}

impl View for Pool {
    type V = PoolView;

    closed spec fn view(&self) -> PoolView {
        PoolView { capacity: self.capacity as nat, issued: self.issued as nat }
    }
}

impl Pool {
    /// A pool of `capacity` tokens, none of them issued.
    pub fn new(capacity: u64) -> (r: Pool)
        requires
            capacity >= 1,
        ensures
            r@ == (PoolView { capacity: capacity as nat, issued: 0 }),
            r@.wf(),
    {
        Pool { capacity, issued: 0 }
    }

    /// Issues one token if one is free; reports whether it did.
    pub fn try_acquire(&mut self) -> (r: bool)
        requires
            old(self)@.wf(),
        ensures
            r == (old(self)@.issued < old(self)@.capacity),
            r ==> final(self)@ == (PoolView { issued: old(self)@.issued + 1, ..old(self)@ }),
            !r ==> final(self)@ == old(self)@,
            final(self)@.wf(),
    {
        if self.issued < self.capacity {
            self.issued = self.issued + 1;
            true
        } else {
            false
        }
    }

    /// Takes back one token from a probe that has finished.
    pub fn release(&mut self)
        requires
            old(self)@.wf(),
            old(self)@.issued > 0,
        ensures
            final(self)@ == (PoolView { issued: (old(self)@.issued - 1) as nat, ..old(self)@ }),
            final(self)@.wf(),
    {
        self.issued = self.issued - 1;
    }

    /// The number of tokens the pool was made with.
    pub fn capacity(&self) -> (r: u64)
        ensures
            r == self@.capacity,
    {
        self.capacity
    }

    /// The number of tokens currently held.
    pub fn issued(&self) -> (r: u64)
        ensures
            r == self@.issued,
    {
        self.issued
    }

    /// Whether every token has come back.
    pub fn is_drained(&self) -> (r: bool)
        ensures
            r == (self@.issued == 0),
    {
        self.issued == 0
    }
}

} // verus!
