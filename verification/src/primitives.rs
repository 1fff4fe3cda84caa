use vstd::prelude::*;

verus! {

/// How a value of a registered type travels between Rust and JavaScript;
/// each kind has the one-letter code that embind signatures use.
#[derive(Clone, Copy, Debug, PartialEq, Eq, Structural)]
pub enum WireKind {
    /// A pointer to the value (`'p'`), the default for types of the user.
    Pointer,
    /// An integer held in a machine word (`'i'`).
    Integer,
    /// A double-precision number (`'d'`).
    Double,
}

/// The signature letter of a wire kind.
pub open spec fn signature_letter(kind: WireKind) -> char {
    match kind {
        WireKind::Pointer => 'p',
        WireKind::Integer => 'i',
        WireKind::Double => 'd',
    }
}

impl WireKind {
    /// The signature letter of this kind.
    pub fn signature(self) -> (c: char)
        ensures
            c == signature_letter(self),
    {
        match self {
            WireKind::Pointer => 'p',
            WireKind::Integer => 'i',
            WireKind::Double => 'd',
        }
    }
}

/// Whether a value with signature letter `sig` is handed to JavaScript by a
/// pointer to a heap copy of it (`'p'`) rather than by a pointer to the value.
pub fn passes_by_pointer(sig: char) -> (r: bool)
    ensures
        r == (sig == 'p'),
{
    sig == 'p'
}

/// The primitive Rust types that are registered with embind.
#[derive(Clone, Copy, Debug, PartialEq, Eq, Structural)]
pub enum Primitive {
    Bool,
    U8,
    U16,
    U32,
    I8,
    I16,
    I32,
    Usize,
    Isize,
    F32,
    F64,
}

/// How a primitive type is described to embind. Sizes and ranges are those of
/// `wasm32-unknown-emscripten`, the target of these bindings, where `usize`
/// and `isize` are four bytes wide; the bounds of an integer type go to embind
/// as a signed and an unsigned 32-bit number.
#[derive(Clone, Copy, Debug, PartialEq, Eq, Structural)]
pub enum Registration {
    /// A boolean, with the values that stand for `true` and `false`.
    Bool { true_value: bool, false_value: bool },
    /// An integer of `size` bytes whose values lie in `min_range..=max_range`.
    Integer { size: usize, min_range: i32, max_range: u32 },
    /// A floating-point number of `size` bytes.
    Float { size: usize },
}

/// The wire kind of each primitive type.
pub open spec fn primitive_kind(p: Primitive) -> WireKind {
    match p {
        Primitive::Bool => WireKind::Integer,
        Primitive::F32 | Primitive::F64 => WireKind::Double,
        _ => WireKind::Integer,
    }
}

/// The name under which each primitive type is registered.
pub open spec fn primitive_name(p: Primitive) -> Seq<char> {
    match p {
        Primitive::Bool => "rust_bool"@,
        Primitive::U8 => "rust_u8"@,
        Primitive::U16 => "rust_u16"@,
        Primitive::U32 => "rust_u32"@,
        Primitive::I8 => "rust_i8"@,
        Primitive::I16 => "rust_i16"@,
        Primitive::I32 => "rust_i32"@,
        Primitive::Usize => "rust_usize"@,
        Primitive::Isize => "rust_isize"@,
        Primitive::F32 => "rust_f32"@,
        Primitive::F64 => "rust_f64"@,
    }
}

/// What embind is told of each primitive type.
pub open spec fn primitive_registration(p: Primitive) -> Registration {
    match p {
        Primitive::Bool => Registration::Bool { true_value: true, false_value: false },
        Primitive::U8 => Registration::Integer {
            size: 1,
            min_range: u8::MIN as i32,
            max_range: u8::MAX as u32,
        },
        Primitive::U16 => Registration::Integer {
            size: 2,
            min_range: u16::MIN as i32,
            max_range: u16::MAX as u32,
        },
        Primitive::U32 => Registration::Integer {
            size: 4,
            min_range: u32::MIN as i32,
            max_range: u32::MAX,
        },
        Primitive::I8 => Registration::Integer {
            size: 1,
            min_range: i8::MIN as i32,
            max_range: i8::MAX as u32,
        },
        Primitive::I16 => Registration::Integer {
            size: 2,
            min_range: i16::MIN as i32,
            max_range: i16::MAX as u32,
        },
        Primitive::I32 => Registration::Integer {
            size: 4,
            min_range: i32::MIN,
            max_range: i32::MAX as u32,
        },
        Primitive::Usize => Registration::Integer { size: 4, min_range: 0, max_range: u32::MAX },
        Primitive::Isize => Registration::Integer {
            size: 4,
            min_range: i32::MIN,
            max_range: i32::MAX as u32,
        },
        Primitive::F32 => Registration::Float { size: 4 },
        Primitive::F64 => Registration::Float { size: 8 },
    }
}

impl Primitive {
    /// How values of this type travel to and from JavaScript.
    pub fn wire_kind(self) -> (k: WireKind)
        ensures
            k == primitive_kind(self),
    {
        match self {
            Primitive::F32 | Primitive::F64 => WireKind::Double,
            _ => WireKind::Integer,
        }
    }

    /// The signature letter of this type: `'i'` for booleans and integers,
    /// `'d'` for floating-point numbers.
    pub fn signature(self) -> (c: char)
        ensures
            c == signature_letter(primitive_kind(self)),
    {
        self.wire_kind().signature()
    }

    /// The name under which this type is registered.
    pub fn registered_name(self) -> (s: &'static str)
        ensures
            s@ == primitive_name(self),
    {
        match self {
            Primitive::Bool => "rust_bool",
            Primitive::U8 => "rust_u8",
            Primitive::U16 => "rust_u16",
            Primitive::U32 => "rust_u32",
            Primitive::I8 => "rust_i8",
            Primitive::I16 => "rust_i16",
            Primitive::I32 => "rust_i32",
            Primitive::Usize => "rust_usize",
            Primitive::Isize => "rust_isize",
            Primitive::F32 => "rust_f32",
            Primitive::F64 => "rust_f64",
        }
    }

    /// What embind is told of this type.
    pub fn registration(self) -> (r: Registration)
        ensures
            r == primitive_registration(self),
    {
        match self {
            Primitive::Bool => Registration::Bool { true_value: true, false_value: false },
            Primitive::U8 => Registration::Integer { size: 1, min_range: 0, max_range: 255 },
            Primitive::U16 => Registration::Integer { size: 2, min_range: 0, max_range: 65535 },
            Primitive::U32 => Registration::Integer {
                size: 4,
                min_range: 0,
                max_range: 4294967295,
            },
            Primitive::I8 => Registration::Integer { size: 1, min_range: -128, max_range: 127 },
            Primitive::I16 => Registration::Integer {
                size: 2,
                min_range: -32768,
                max_range: 32767,
            },
            Primitive::I32 => Registration::Integer {
                size: 4,
                min_range: -2147483648,
                max_range: 2147483647,
            },
            Primitive::Usize => Registration::Integer {
                size: 4,
                min_range: 0,
                max_range: 4294967295,
            },
            Primitive::Isize => Registration::Integer {
                size: 4,
                min_range: -2147483648,
                max_range: 2147483647,
            },
            Primitive::F32 => Registration::Float { size: 4 },
            Primitive::F64 => Registration::Float { size: 8 },
        }
    }
}

/// No primitive type is passed by pointer, and each is registered as the
/// kind of number that it travels as.
pub proof fn lemma_primitives_pass_by_value(p: Primitive)
    ensures
        signature_letter(primitive_kind(p)) != 'p',
        primitive_registration(p) is Integer ==> primitive_kind(p) == WireKind::Integer,
        primitive_registration(p) is Float ==> primitive_kind(p) == WireKind::Double,
{
}

/// Whether a primitive is an unsigned integer type.
pub open spec fn is_unsigned_integer(p: Primitive) -> bool {
    p == Primitive::U8 || p == Primitive::U16 || p == Primitive::U32 || p == Primitive::Usize
}

/// Whether a primitive is a signed integer type.
pub open spec fn is_signed_integer(p: Primitive) -> bool {
    p == Primitive::I8 || p == Primitive::I16 || p == Primitive::I32 || p == Primitive::Isize
}

/// The number of distinct values that `size` bytes hold.
pub open spec fn values_in_bytes(size: usize) -> int {
    if size == 1 {
        256
    } else if size == 2 {
        65536
    } else {
        4294967296
    }
}

/// Each integer type is registered with the whole range of the Rust type and
/// nothing more: its size in bytes (one for `u8`/`i8`, two for `u16`/`i16`,
/// four for the 32-bit and pointer-sized types on wasm32), a range that holds
/// exactly as many values as that many bytes do, starting at 0 for an
/// unsigned type and split evenly around 0 for a signed type. Booleans and
/// floating-point numbers are not registered as integers.
pub proof fn lemma_integer_ranges_are_type_ranges(p: Primitive)
    ensures
        (is_unsigned_integer(p) || is_signed_integer(p)) <==> (primitive_registration(p) is Integer),
        p == Primitive::Bool ==> (primitive_registration(p) == (Registration::Bool {
            true_value: true,
            false_value: false,
        })),
        p == Primitive::F32 ==> (primitive_registration(p) == (Registration::Float { size: 4 })),
        p == Primitive::F64 ==> (primitive_registration(p) == (Registration::Float { size: 8 })),
        (p == Primitive::U8 || p == Primitive::I8) ==> primitive_registration(p)->Integer_size == 1,
        (p == Primitive::U16 || p == Primitive::I16) ==> primitive_registration(p)->Integer_size
            == 2,
        (p == Primitive::U32 || p == Primitive::I32 || p == Primitive::Usize || p
            == Primitive::Isize) ==> primitive_registration(p)->Integer_size == 4,
        (primitive_registration(p) is Integer) ==> primitive_registration(p)->max_range
            - primitive_registration(p)->min_range + 1 == values_in_bytes(
            primitive_registration(p)->Integer_size,
        ),
        is_unsigned_integer(p) ==> primitive_registration(p)->min_range == 0,
        is_signed_integer(p) ==> primitive_registration(p)->min_range < 0,
        is_signed_integer(p) ==> primitive_registration(p)->max_range == -primitive_registration(
            p,
        )->min_range - 1,
{
}

} // verus!
