//! Identifiers and the allocators that hand them out.

use vstd::prelude::*;

verus! {

/// An identifier. Two identifiers are the same when their numbers are.
#[derive(PartialEq, Eq, Structural, Hash, Debug)]
pub struct Id(pub u64);

/// A source of identifiers.
pub trait IdAllocator {
    /// Whether the allocator can hand out one more identifier.
    spec fn can_allocate(&self) -> bool;

    /// Hands out an identifier.
    fn new_id(&mut self) -> Id
        requires
            old(self).can_allocate(),
    ;

    /// Takes back an identifier that is no longer in use.
    fn drop_id(&mut self, e: Id);
}

/// The allocator that counts upwards and hands out a new identifier each time.
pub struct DefaultIdAllocator {
    next_number: u64,
}

impl View for DefaultIdAllocator {
    type V = nat;

    /// The number of identifiers handed out so far, which is the number of the
    /// next one.
    closed spec fn view(&self) -> nat {
        self.next_number as nat
    }
}

impl DefaultIdAllocator {
    /// An allocator that has handed out nothing yet.
    pub fn new() -> (allocator: Self)
        ensures
            allocator@ == 0,
    {
        Self { next_number: 0 }
    }
}

impl IdAllocator for DefaultIdAllocator {
    open spec fn can_allocate(&self) -> bool {
        self@ < u64::MAX
    }

    /// Hands out the identifier whose number is the count of those handed out
    /// before: no identifier comes twice.
    fn new_id(&mut self) -> (id: Id)
        ensures
            id.0 == old(self)@,
            final(self)@ == old(self)@ + 1,
    {
        let to_return = self.next_number;
        self.next_number += 1;
        Id(to_return)
    }

    /// Does nothing: a number that was handed out is never handed out again.
    fn drop_id(&mut self, e: Id)
        ensures
            final(self)@ == old(self)@,
    {
    }
}

} // verus!
