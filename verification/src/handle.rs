use vstd::prelude::*;

verus! {

/// The handle of the JavaScript value `undefined`.
pub const EMVAL_UNDEFINED: usize = 2;

/// The handle of the JavaScript value `null`.
pub const EMVAL_NULL: usize = 4;

/// The handle of the JavaScript value `true`.
pub const EMVAL_TRUE: usize = 6;

/// The handle of the JavaScript value `false`.
pub const EMVAL_FALSE: usize = 8;

/// The largest reserved handle; handles above it are reference counted.
pub const EMVAL_LAST_RESERVED_HANDLE: usize = 8;

/// The null handle, held by a value whose ownership was given away.
pub const EMVAL_NO_HANDLE: usize = 0;

/// A handle is reserved when the runtime never counts references to it.
pub open spec fn is_reserved(handle: usize) -> bool {
    handle <= EMVAL_LAST_RESERVED_HANDLE
}

/// A handle is reference counted exactly when it is not reserved.
pub open spec fn is_ref_counted(handle: usize) -> bool {
    handle > EMVAL_LAST_RESERVED_HANDLE
}

/// Whether the runtime counts references to `handle`.
pub fn handle_uses_ref_count(handle: usize) -> (r: bool)
    ensures
        r == is_ref_counted(handle),
        r == (handle > EMVAL_LAST_RESERVED_HANDLE),
{
    handle > EMVAL_LAST_RESERVED_HANDLE
}

} // verus!
