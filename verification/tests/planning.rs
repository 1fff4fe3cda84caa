use emscripten_val::invoke::plan_invoke;
use emscripten_val::order::ordering_from_tests;
use emscripten_val::primitives::{passes_by_pointer, Primitive, Registration, WireKind};
use emscripten_val::sequence::to_vec_with;
use emscripten_val::type_ids::{type_id_from_bits, TypeIdAllocator};
use emscripten_val::val::RefCountOp;
use std::cmp::Ordering;

#[test]
fn ordering_prefers_equality() {
    assert_eq!(ordering_from_tests(true, true, true), Some(Ordering::Equal));
    assert_eq!(ordering_from_tests(true, false, false), Some(Ordering::Equal));
    assert_eq!(ordering_from_tests(false, true, true), Some(Ordering::Greater));
    assert_eq!(ordering_from_tests(false, true, false), Some(Ordering::Greater));
    assert_eq!(ordering_from_tests(false, false, true), Some(Ordering::Less));
    assert_eq!(ordering_from_tests(false, false, false), None);
}

#[test]
fn invoke_plan_without_arguments() {
    let p = plan_invoke(99, &[]);
    assert_eq!(p.type_ids, vec![99]);
    assert_eq!(p.arity, 1);
    assert!(p.retains.is_empty());
}

#[test]
fn invoke_plan_with_arguments() {
    let p = plan_invoke(5, &[12, 4, 30]);
    assert_eq!(p.type_ids, vec![5, 5, 5, 5]);
    assert_eq!(p.arity, 4);
    assert_eq!(
        p.retains,
        vec![RefCountOp::Increment(12), RefCountOp::Increment(4), RefCountOp::Increment(30)]
    );
}

#[test]
fn signatures() {
    assert_eq!(WireKind::Pointer.signature(), 'p');
    assert_eq!(WireKind::Integer.signature(), 'i');
    assert_eq!(WireKind::Double.signature(), 'd');
    assert!(passes_by_pointer('p'));
    assert!(!passes_by_pointer('i'));
    assert!(!passes_by_pointer('d'));
    assert_eq!(Primitive::Bool.signature(), 'i');
    assert_eq!(Primitive::U8.signature(), 'i');
    assert_eq!(Primitive::Isize.signature(), 'i');
    assert_eq!(Primitive::F32.signature(), 'd');
    assert_eq!(Primitive::F64.signature(), 'd');
}

#[test]
fn registered_names() {
    assert_eq!(Primitive::Bool.registered_name(), "rust_bool");
    assert_eq!(Primitive::U16.registered_name(), "rust_u16");
    assert_eq!(Primitive::Usize.registered_name(), "rust_usize");
    assert_eq!(Primitive::F64.registered_name(), "rust_f64");
}

#[test]
fn registrations() {
    assert_eq!(
        Primitive::Bool.registration(),
        Registration::Bool { true_value: true, false_value: false }
    );
    assert_eq!(
        Primitive::U8.registration(),
        Registration::Integer { size: 1, min_range: 0, max_range: u8::MAX as u32 }
    );
    assert_eq!(
        Primitive::I16.registration(),
        Registration::Integer { size: 2, min_range: i16::MIN as i32, max_range: i16::MAX as u32 }
    );
    assert_eq!(
        Primitive::U32.registration(),
        Registration::Integer { size: 4, min_range: 0, max_range: u32::MAX }
    );
    assert_eq!(
        Primitive::I32.registration(),
        Registration::Integer { size: 4, min_range: i32::MIN, max_range: i32::MAX as u32 }
    );
    assert_eq!(
        Primitive::Isize.registration(),
        Registration::Integer { size: 4, min_range: i32::MIN, max_range: i32::MAX as u32 }
    );
    assert_eq!(Primitive::F32.registration(), Registration::Float { size: 4 });
    assert_eq!(Primitive::F64.registration(), Registration::Float { size: 8 });
}

#[test]
fn type_ids_count_up_from_one() {
    let mut a = TypeIdAllocator::new();
    assert_eq!(a.peek(), 1);
    let first = a.get_next_type_id();
    let second = a.get_next_type_id();
    let third = a.get_next_type_id();
    assert_eq!((first, second, third), (1, 2, 3));
    assert_eq!(a.peek(), 4);
    assert!(first < second && second < third);
}

#[test]
fn type_id_bits_are_truncated_to_pointer_width() {
    assert_eq!(type_id_from_bits(42), 42);
    let big: u128 = (1u128 << 100) + 7;
    assert_eq!(type_id_from_bits(big), big as usize);
}

#[test]
fn to_vec_reads_each_index_in_order() {
    let v = to_vec_with(4, |i: u32| i * 10);
    assert_eq!(v, vec![0, 10, 20, 30]);
    let empty: Vec<u32> = to_vec_with(0, |i: u32| i);
    assert!(empty.is_empty());
}
