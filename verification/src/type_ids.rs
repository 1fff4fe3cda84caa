use vstd::prelude::*;

verus! {

/// Issues fresh type ids for types registered with embind, counting up from 1.
pub struct TypeIdAllocator {
    next: i32,
}

impl View for TypeIdAllocator {
    type V = int;

    /// The id that the allocator issues next.
    closed spec fn view(&self) -> int {
        self.next as int
    }
}

impl TypeIdAllocator {
    #[verifier::type_invariant]
    spec fn next_is_positive(self) -> bool {
        self.next >= 1
    }

    /// An allocator whose first id is 1.
    pub fn new() -> (r: TypeIdAllocator)
        ensures
            r@ == 1,
    {
        TypeIdAllocator { next: 1 }
    }

    /// The id that the allocator issues next.
    pub fn peek(&self) -> (r: i32)
        ensures
            r == self@,
            r >= 1,
    {
        proof {
            use_type_invariant(self);
        }
        self.next
    }

    /// Issues the next type id. Each id is positive (never the null type id)
    /// and larger than every id issued before it by the same allocator.
    pub fn get_next_type_id(&mut self) -> (id: usize)
        requires
            old(self)@ < i32::MAX,
        ensures
            id == old(self)@,
            id >= 1,
            final(self)@ == old(self)@ + 1,
    {
        proof {
            use_type_invariant(&*self);
        }
        let id = self.next;
        self.next = id + 1;
        id as usize
    }
}

/// An allocator never issues the same id twice: ids issued after a given one
/// are larger than it.
pub proof fn lemma_issued_ids_increase(issued: int, state_after: int, later: int)
    requires
        state_after == issued + 1,
        later >= state_after,
    ensures
        later > issued,
        later != issued,
{
}

/// A type id from the bits of a Rust `TypeId`, truncated to the width of a
/// pointer as embind's `TYPEID` is.
pub fn type_id_from_bits(bits: u128) -> (r: usize)
    ensures
        r == bits as usize,
{
    bits as usize
}

} // verus!
