use vstd::prelude::*;

verus! {

/// Reads the elements of a JavaScript array of `len` elements into a vector,
/// where `read(i)` converts the element at index `i`: the elements are read
/// once each, at indices `0, 1, ..., len - 1`, and the result holds them in
/// that order.
pub fn to_vec_with<T, F: Fn(u32) -> T>(len: u32, read: F) -> (r: Vec<T>)
    requires
        forall|i: u32| i < len ==> call_requires(read, (i,)),
    ensures
        r@.len() == len,
        forall|i: int| 0 <= i < len ==> call_ensures(read, (i as u32,), #[trigger] r@[i]),
{
    let mut v: Vec<T> = Vec::new();
    let mut i: u32 = 0;
    while i < len
        invariant
            i <= len,
            v@.len() == i,
            forall|j: u32| j < len ==> call_requires(read, (j,)),
            forall|j: int| 0 <= j < i ==> call_ensures(read, (j as u32,), #[trigger] v@[j]),
        decreases len - i,
    {
        let x = read(i);
        v.push(x);
        i = i + 1;
    }
    v
}

} // verus!
