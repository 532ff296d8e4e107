use vstd::prelude::*;

verus! {

/// Hands out submission identifiers in strictly increasing order.
#[derive(Debug)]
pub struct RequestIdAllocator {
    next_id: u64,
}

impl RequestIdAllocator {
    /// The identifier that the next call of `next` returns.
    pub closed spec fn peek(&self) -> u64 {
        self.next_id
    }

    pub fn new(first: u64) -> (r: Self)
        ensures
            r.peek() == first,
    {
        RequestIdAllocator { next_id: first }
    }

    /// Returns the current identifier and moves past it.
    pub fn next(&mut self) -> (r: u64)
        requires
            old(self).peek() < u64::MAX,
        ensures
            r == old(self).peek(),
            final(self).peek() == r + 1,
    {
        let r = self.next_id;
        self.next_id = r + 1;
        r
    }

    /// The identifier that the next call of `next` returns.
    pub fn current(&self) -> (r: u64)
        ensures
            r == self.peek(),
    {
        self.next_id
    }
}

} // verus!
