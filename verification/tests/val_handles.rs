use emscripten_val::handle::{
    handle_uses_ref_count, EMVAL_FALSE, EMVAL_LAST_RESERVED_HANDLE, EMVAL_NO_HANDLE, EMVAL_NULL,
    EMVAL_TRUE, EMVAL_UNDEFINED,
};
use emscripten_val::val::{callback_result_handle, RefCountOp, Val};

#[test]
fn reserved_handles_are_not_ref_counted() {
    for h in [EMVAL_NO_HANDLE, EMVAL_UNDEFINED, EMVAL_NULL, EMVAL_TRUE, EMVAL_FALSE] {
        assert!(!handle_uses_ref_count(h));
        assert!(!Val::take_ownership(h).uses_ref_count());
    }
    assert!(!handle_uses_ref_count(EMVAL_LAST_RESERVED_HANDLE));
    assert!(handle_uses_ref_count(EMVAL_LAST_RESERVED_HANDLE + 1));
    assert!(handle_uses_ref_count(1000));
}

#[test]
fn constants_have_their_runtime_values() {
    assert_eq!(EMVAL_UNDEFINED, 2);
    assert_eq!(EMVAL_NULL, 4);
    assert_eq!(EMVAL_TRUE, 6);
    assert_eq!(EMVAL_FALSE, 8);
    assert_eq!(EMVAL_LAST_RESERVED_HANDLE, 8);
    assert_eq!(EMVAL_NO_HANDLE, 0);
}

#[test]
fn null_and_undefined_values() {
    let n = Val::null();
    assert_eq!(n.as_handle(), EMVAL_NULL);
    assert!(n.is_null());
    assert!(!n.is_undefined());
    assert!(!n.is_true());
    assert!(!n.is_false());
    let u = Val::undefined();
    assert_eq!(u.as_handle(), EMVAL_UNDEFINED);
    assert!(u.is_undefined());
    assert!(!u.is_null());
}

#[test]
fn default_is_null() {
    let d = Val::default();
    assert!(d.is_null());
    assert_eq!(d.as_handle(), EMVAL_NULL);
}

#[test]
fn true_and_false_values() {
    let t = Val::take_ownership(EMVAL_TRUE);
    assert!(t.is_true());
    assert!(!t.is_false());
    let f = Val::take_ownership(EMVAL_FALSE);
    assert!(f.is_false());
    assert!(!f.is_true());
    let other = Val::take_ownership(42);
    assert!(!other.is_true() && !other.is_false() && !other.is_null() && !other.is_undefined());
}

#[test]
fn take_ownership_keeps_the_handle() {
    let v = Val::take_ownership(1234);
    assert_eq!(v.as_handle(), 1234);
}

#[test]
fn release_then_take_round_trip() {
    let mut v = Val::take_ownership(77);
    let h = v.release_ownership();
    assert_eq!(h, 77);
    assert_eq!(v.as_handle(), EMVAL_NO_HANDLE);
    assert_eq!(v.dispose(), RefCountOp::Nothing);
    let back = Val::take_ownership(h);
    assert_eq!(back.as_handle(), 77);
}

#[test]
fn from_val_of_counted_value_increments() {
    let v = Val::take_ownership(20);
    let (w, op) = Val::from_val(&v);
    assert_eq!(w.as_handle(), 20);
    assert_eq!(op, RefCountOp::Increment(20));
}

#[test]
fn from_val_of_reserved_value_does_nothing() {
    let v = Val::null();
    let (w, op) = Val::from_val(&v);
    assert!(w.is_null());
    assert_eq!(op, RefCountOp::Nothing);
}

#[test]
fn dispose_of_counted_value_decrements_and_clears() {
    let mut v = Val::take_ownership(30);
    assert_eq!(v.dispose(), RefCountOp::Decrement(30));
    assert_eq!(v.as_handle(), EMVAL_NO_HANDLE);
    assert_eq!(v.dispose(), RefCountOp::Nothing);
}

#[test]
fn dispose_of_reserved_value_keeps_it() {
    let mut v = Val::take_ownership(EMVAL_TRUE);
    assert_eq!(v.dispose(), RefCountOp::Nothing);
    assert_eq!(v.as_handle(), EMVAL_TRUE);
}

#[test]
fn share_then_dispose_balances() {
    for h in [0usize, 2, 4, 6, 8, 9, 10, 500] {
        let v = Val::take_ownership(h);
        let (mut copy, up) = Val::from_val(&v);
        let down = copy.dispose();
        let delta = |op: RefCountOp| -> i64 {
            match op {
                RefCountOp::Nothing => 0,
                RefCountOp::Increment(x) => if x == h { 1 } else { 0 },
                RefCountOp::Decrement(x) => if x == h { -1 } else { 0 },
            }
        };
        assert_eq!(delta(up) + delta(down), 0);
    }
}

#[test]
fn returned_handles_are_kept() {
    assert!(Val::from_returned_handle(EMVAL_NULL).is_null());
    assert!(Val::from_returned_handle(EMVAL_UNDEFINED).is_undefined());
    assert_eq!(Val::from_returned_handle(18).as_handle(), 18);
}

#[test]
fn callback_results() {
    assert_eq!(callback_result_handle(Some(Val::take_ownership(40))), 40);
    assert_eq!(callback_result_handle(Some(Val::null())), EMVAL_NULL);
    assert_eq!(callback_result_handle(None), EMVAL_NO_HANDLE);
}
