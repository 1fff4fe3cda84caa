use vstd::prelude::*;

use std::cmp::Ordering;

verus! {

/// How two JavaScript values compare, given the outcomes of JavaScript's
/// `==`, `>` and `<` on them, tried in that order.
pub open spec fn ordering_spec(equal: bool, greater: bool, less: bool) -> Option<Ordering> {
    if equal {
        Some(Ordering::Equal)
    } else if greater {
        Some(Ordering::Greater)
    } else if less {
        Some(Ordering::Less)
    } else {
        None
    }
}

/// The partial order of two JavaScript values from the outcomes of `==`, `>`
/// and `<`: equality wins, then greater, then less; values that are none of
/// these (such as `NaN` against anything) are unordered.
pub fn ordering_from_tests(equal: bool, greater: bool, less: bool) -> (r: Option<Ordering>)
    ensures
        r == ordering_spec(equal, greater, less),
        (r == Some(Ordering::Equal)) <==> equal,
        r is None <==> (!equal && !greater && !less),
{
    if equal {
        Some(Ordering::Equal)
    } else if greater {
        Some(Ordering::Greater)
    } else if less {
        Some(Ordering::Less)
    } else {
        None
    }
}

/// The two values are equal exactly when they compare `Equal`; they compare
/// `Greater` only when they are not equal and `>` holds; `Less` only when
/// neither `==` nor `>` holds and `<` does.
pub proof fn lemma_ordering_agrees_with_tests(equal: bool, greater: bool, less: bool)
    ensures
        (ordering_spec(equal, greater, less) == Some(Ordering::Equal)) <==> equal,
        (ordering_spec(equal, greater, less) == Some(Ordering::Greater)) <==> (!equal && greater),
        (ordering_spec(equal, greater, less) == Some(Ordering::Less)) <==> (!equal && !greater
            && less),
{
}

} // verus!
