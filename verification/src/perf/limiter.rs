//! The concurrency limiter: a pool of a fixed number of permits. A request
//! is in flight only while it holds a permit.

use vstd::prelude::*;

verus! {

/// A pool of permits of a fixed size.
#[derive(Debug)]
pub struct PermitPool {
    capacity: usize,
    held: usize,
}

impl PermitPool {
    /// The number of permits of the pool.
    pub closed spec fn spec_capacity(&self) -> usize {
        self.capacity
    }

    /// The number of permits that are held.
    pub closed spec fn spec_held(&self) -> usize {
        self.held
    }

    /// No more permits are held than the pool has.
    pub open spec fn wf(&self) -> bool {
        self.held() <= self.capacity()
    }

    /// A pool of `capacity` permits, none of them held.
    pub fn new(capacity: usize) -> (r: Self)
        ensures
            r.wf(),
            r.capacity() == capacity,
            r.held() == 0,
    {
        PermitPool { capacity, held: 0 }
    }

    /// The number of permits of the pool.
    #[verifier::when_used_as_spec(spec_capacity)]
    pub fn capacity(&self) -> (r: usize)
        ensures
            r == self.capacity(),
    {
        self.capacity
    }

    /// The number of permits that are held.
    #[verifier::when_used_as_spec(spec_held)]
    pub fn held(&self) -> (r: usize)
        ensures
            r == self.held(),
    {
        self.held
    }

    /// Takes a permit if one is free. The pool never grants more permits
    /// than it has.
    pub fn try_acquire(&mut self) -> (granted: bool)
        requires
            old(self).wf(),
        ensures
            final(self).wf(),
            final(self).capacity() == old(self).capacity(),
            granted == (old(self).held() < old(self).capacity()),
            final(self).held() == old(self).held() + if granted { 1int } else { 0int },
    {
        if self.held < self.capacity {
            self.held = self.held + 1;
            true
        } else {
            false
        }
    }

    /// Gives a held permit back. Where none is held nothing is given back:
    /// a permit is released once for each time it was acquired.
    pub fn release(&mut self) -> (released: bool)
        requires
            old(self).wf(),
        ensures
            final(self).wf(),
            final(self).capacity() == old(self).capacity(),
            released == (old(self).held() > 0),
            final(self).held() == old(self).held() - if released { 1int } else { 0int },
    {
        if self.held > 0 {
            self.held = self.held - 1;
            true
        } else {
            false
        }
    }
}

/// At no moment are more permits of a pool held than it has.
pub proof fn lemma_permits_bounded(pool: PermitPool)
    requires
        pool.wf(),
    ensures
        0 <= pool.held() <= pool.capacity(),
{
}

} // verus!
