use vstd::prelude::*;

use crate::handle::{
    is_ref_counted, is_reserved, EMVAL_FALSE, EMVAL_LAST_RESERVED_HANDLE, EMVAL_NO_HANDLE,
    EMVAL_NULL, EMVAL_TRUE, EMVAL_UNDEFINED,
};

verus! {

/// A reference-count operation that the JavaScript runtime is asked to perform.
#[derive(Clone, Copy, Debug, PartialEq, Eq, Structural)]
pub enum RefCountOp {
    /// Nothing is to be done.
    Nothing,
    /// The handle gains one owner.
    Increment(usize),
    /// The handle loses one owner.
    Decrement(usize),
}

/// By how much `op` changes the number of owners of `handle`.
pub open spec fn ref_count_effect(op: RefCountOp, handle: usize) -> int {
    match op {
        RefCountOp::Nothing => 0,
        RefCountOp::Increment(h) => if h == handle { 1 } else { 0 },
        RefCountOp::Decrement(h) => if h == handle { -1 } else { 0 },
    }
}

/// The operation asked for when a value with `handle` gains a second owner.
pub open spec fn share_op(handle: usize) -> RefCountOp {
    if is_ref_counted(handle) {
        RefCountOp::Increment(handle)
    } else {
        RefCountOp::Nothing
    }
}

/// The operation asked for when a value with `handle` is dropped.
pub open spec fn dispose_op(handle: usize) -> RefCountOp {
    if is_ref_counted(handle) {
        RefCountOp::Decrement(handle)
    } else {
        RefCountOp::Nothing
    }
}

/// A JavaScript value, reached through its handle.
pub struct Val {
    handle: usize,
}

impl View for Val {
    type V = usize;

    /// The handle that the value holds.
    closed spec fn view(&self) -> usize {
        self.handle
    }
}

impl Val {
    /// Wraps a raw handle handed over by JavaScript; the value owns it from now on.
    pub fn take_ownership(v: usize) -> (r: Val)
        ensures
            r@ == v,
    {
        Val { handle: v }
    }

    /// The value `undefined`.
    pub fn undefined() -> (r: Val)
        ensures
            r@ == EMVAL_UNDEFINED,
    {
        Val { handle: EMVAL_UNDEFINED }
    }

    /// The value `null`.
    pub fn null() -> (r: Val)
        ensures
            r@ == EMVAL_NULL,
    {
        Val { handle: EMVAL_NULL }
    }

    /// The handle of the value.
    pub fn as_handle(&self) -> (r: usize)
        ensures
            r == self@,
    {
        self.handle
    }

    /// Whether the runtime counts the owners of this value.
    pub fn uses_ref_count(&self) -> (r: bool)
        ensures
            r == is_ref_counted(self@),
    {
        self.handle > EMVAL_LAST_RESERVED_HANDLE
    }

    /// Gives the handle away: the value keeps the null handle, so that
    /// dropping it afterwards releases nothing.
    pub fn release_ownership(&mut self) -> (r: usize)
        ensures
            r == old(self)@,
            final(self)@ == EMVAL_NO_HANDLE,
    {
        let h = self.handle;
        self.handle = EMVAL_NO_HANDLE;
        h
    }

    /// A second owner of the same JavaScript value, with the reference-count
    /// operation that making it asks for.
    pub fn from_val(v: &Val) -> (r: (Val, RefCountOp))
        ensures
            r.0@ == v@,
            r.1 == share_op(v@),
    {
        let handle = v.handle;
        if v.uses_ref_count() {
            (Val { handle }, RefCountOp::Increment(handle))
        } else {
            (Val { handle }, RefCountOp::Nothing)
        }
    }

    /// What dropping this value asks of the runtime. A reference-counted value
    /// gives its handle back and is left holding the null handle; a reserved
    /// one is left as it is.
    pub fn dispose(&mut self) -> (op: RefCountOp)
        ensures
            op == dispose_op(old(self)@),
            old(self)@ > EMVAL_LAST_RESERVED_HANDLE ==> op == RefCountOp::Decrement(old(self)@),
            old(self)@ <= EMVAL_LAST_RESERVED_HANDLE ==> op == RefCountOp::Nothing,
            final(self)@ == (if is_ref_counted(old(self)@) {
                EMVAL_NO_HANDLE
            } else {
                old(self)@
            }),
    {
        if self.uses_ref_count() {
            let h = self.handle;
            self.handle = EMVAL_NO_HANDLE;
            RefCountOp::Decrement(h)
        } else {
            RefCountOp::Nothing
        }
    }

    /// The value for a handle that an invoked JavaScript function returned.
    /// Reserved handles are used as they are; any other handle is owned by
    /// the new value.
    pub fn from_returned_handle(handle: usize) -> (r: Val)
        ensures
            r@ == handle,
    {
        if handle <= EMVAL_LAST_RESERVED_HANDLE {
            Val { handle }
        } else {
            Val::take_ownership(handle)
        }
    }

    /// Whether the value is `null`.
    pub fn is_null(&self) -> (r: bool)
        ensures
            r == (self@ == EMVAL_NULL),
    {
        self.handle == EMVAL_NULL
    }

    /// Whether the value is `undefined`.
    pub fn is_undefined(&self) -> (r: bool)
        ensures
            r == (self@ == EMVAL_UNDEFINED),
    {
        self.handle == EMVAL_UNDEFINED
    }

    /// Whether the value is `true`.
    pub fn is_true(&self) -> (r: bool)
        ensures
            r == (self@ == EMVAL_TRUE),
    {
        self.handle == EMVAL_TRUE
    }

    /// Whether the value is `false`.
    pub fn is_false(&self) -> (r: bool)
        ensures
            r == (self@ == EMVAL_FALSE),
    {
        self.handle == EMVAL_FALSE
    }
}

/// The handle that a Rust callback hands back to JavaScript: the handle of
/// the value it returned, whose ownership passes to JavaScript, or the null
/// handle when the callback did not return (it panicked).
pub fn callback_result_handle(result: Option<Val>) -> (h: usize)
    ensures
        h == (match result {
            Some(v) => v@,
            None => EMVAL_NO_HANDLE,
        }),
{
    match result {
        Some(v) => {
            let mut v = v;
            v.release_ownership()
        },
        None => EMVAL_NO_HANDLE,
    }
}

impl Default for Val {
    /// The default value is `null`.
    fn default() -> (r: Val)
        ensures
            r@ == EMVAL_NULL,
    {
        Val::null()
    }
}

/// Making a second owner of a value and dropping that owner again leaves the
/// number of owners of every handle as it was.
pub proof fn lemma_share_then_dispose_balances(handle: usize, other: usize)
    ensures
        ref_count_effect(share_op(handle), other) + ref_count_effect(dispose_op(handle), other)
            == 0,
{
}

/// Every handle above the last reserved one is counted: a second owner of it
/// adds one owner of exactly that handle and dropping it removes one; no other
/// handle is touched. Handles up to the last reserved one ask for nothing.
pub proof fn lemma_counted_handles_are_retained_and_released(handle: usize, other: usize)
    ensures
        handle > EMVAL_LAST_RESERVED_HANDLE ==> share_op(handle) == RefCountOp::Increment(handle),
        handle > EMVAL_LAST_RESERVED_HANDLE ==> dispose_op(handle) == RefCountOp::Decrement(
            handle,
        ),
        handle > EMVAL_LAST_RESERVED_HANDLE ==> ref_count_effect(share_op(handle), handle) == 1,
        handle > EMVAL_LAST_RESERVED_HANDLE ==> ref_count_effect(dispose_op(handle), handle) == -1,
        other != handle ==> ref_count_effect(share_op(handle), other) == 0,
        other != handle ==> ref_count_effect(dispose_op(handle), other) == 0,
        handle <= EMVAL_LAST_RESERVED_HANDLE ==> share_op(handle) == RefCountOp::Nothing,
        handle <= EMVAL_LAST_RESERVED_HANDLE ==> dispose_op(handle) == RefCountOp::Nothing,
{
}

/// The reserved values (`undefined`, `null`, `true`, `false`) and the null
/// handle never ask the runtime for a reference-count operation.
pub proof fn lemma_reserved_handles_need_no_counting(handle: usize)
    requires
        is_reserved(handle),
    ensures
        share_op(handle) == RefCountOp::Nothing,
        dispose_op(handle) == RefCountOp::Nothing,
{
}

/// The four reserved constants are reserved and pairwise distinct, so a value
/// is at most one of `undefined`, `null`, `true` and `false`; a value whose
/// handle was released is none of them; and the last reserved handle is the
/// largest of the four constants.
pub proof fn lemma_reserved_constants_distinct()
    ensures
        is_reserved(EMVAL_UNDEFINED),
        is_reserved(EMVAL_NULL),
        is_reserved(EMVAL_TRUE),
        is_reserved(EMVAL_FALSE),
        is_reserved(EMVAL_NO_HANDLE),
        EMVAL_UNDEFINED != EMVAL_NULL,
        EMVAL_UNDEFINED != EMVAL_TRUE,
        EMVAL_UNDEFINED != EMVAL_FALSE,
        EMVAL_NULL != EMVAL_TRUE,
        EMVAL_NULL != EMVAL_FALSE,
        EMVAL_TRUE != EMVAL_FALSE,
        EMVAL_NO_HANDLE != EMVAL_UNDEFINED,
        EMVAL_NO_HANDLE != EMVAL_NULL,
        EMVAL_NO_HANDLE != EMVAL_TRUE,
        EMVAL_NO_HANDLE != EMVAL_FALSE,
        EMVAL_UNDEFINED <= EMVAL_LAST_RESERVED_HANDLE,
        EMVAL_NULL <= EMVAL_LAST_RESERVED_HANDLE,
        EMVAL_TRUE <= EMVAL_LAST_RESERVED_HANDLE,
        EMVAL_FALSE <= EMVAL_LAST_RESERVED_HANDLE,
        EMVAL_LAST_RESERVED_HANDLE == EMVAL_UNDEFINED || EMVAL_LAST_RESERVED_HANDLE == EMVAL_NULL
            || EMVAL_LAST_RESERVED_HANDLE == EMVAL_TRUE || EMVAL_LAST_RESERVED_HANDLE
            == EMVAL_FALSE,
{
}

} // verus!
