use vstd::prelude::*;

verus! {

/// Identifies the type of a stored value: the runtime stand-in for the
/// compile-time type that indexes a slot.
#[derive(Clone, Copy, PartialEq, Eq, Structural, Debug)]
pub enum TypeTag {
    Bool,
    U8,
    U16,
    U32,
    U64,
    U128,
    I8,
    I16,
    I32,
    I64,
    I128,
    F32,
    F64,
    Str,
    Text,
}

/// One stored value, carrying its own type tag through its variant.
///
/// Floating-point values are carried as their raw bit patterns, so the
/// container itself involves no floating-point arithmetic; callers convert
/// with `f32::to_bits` / `f32::from_bits` and the `f64` counterparts.
#[derive(Debug)]
pub enum Value {
    Bool(bool),
    U8(u8),
    U16(u16),
    U32(u32),
    U64(u64),
    U128(u128),
    I8(i8),
    I16(i16),
    I32(i32),
    I64(i64),
    I128(i128),
    F32Bits(u32),
    F64Bits(u64),
    Str(&'static str),
    Text(String),
}

/// The mathematical content of a stored value: text is a sequence of
/// characters, every other payload stands for itself.
pub enum ValueModel {
    Bool(bool),
    U8(u8),
    U16(u16),
    U32(u32),
    U64(u64),
    U128(u128),
    I8(i8),
    I16(i16),
    I32(i32),
    I64(i64),
    I128(i128),
    F32Bits(u32),
    F64Bits(u64),
    Str(Seq<char>),
    Text(Seq<char>),
}

impl View for Value {
    type V = ValueModel;

    open spec fn view(&self) -> ValueModel {
        match self {
            Value::Bool(x) => ValueModel::Bool(*x),
            Value::U8(x) => ValueModel::U8(*x),
            Value::U16(x) => ValueModel::U16(*x),
            Value::U32(x) => ValueModel::U32(*x),
            Value::U64(x) => ValueModel::U64(*x),
            Value::U128(x) => ValueModel::U128(*x),
            Value::I8(x) => ValueModel::I8(*x),
            Value::I16(x) => ValueModel::I16(*x),
            Value::I32(x) => ValueModel::I32(*x),
            Value::I64(x) => ValueModel::I64(*x),
            Value::I128(x) => ValueModel::I128(*x),
            Value::F32Bits(x) => ValueModel::F32Bits(*x),
            Value::F64Bits(x) => ValueModel::F64Bits(*x),
            Value::Str(s) => ValueModel::Str(s@),
            Value::Text(s) => ValueModel::Text(s@),
        }
    }
}

/// The tag that names a value's type.
pub open spec fn tag_of(v: ValueModel) -> TypeTag {
    match v {
        ValueModel::Bool(_) => TypeTag::Bool,
        ValueModel::U8(_) => TypeTag::U8,
        ValueModel::U16(_) => TypeTag::U16,
        ValueModel::U32(_) => TypeTag::U32,
        ValueModel::U64(_) => TypeTag::U64,
        ValueModel::U128(_) => TypeTag::U128,
        ValueModel::I8(_) => TypeTag::I8,
        ValueModel::I16(_) => TypeTag::I16,
        ValueModel::I32(_) => TypeTag::I32,
        ValueModel::I64(_) => TypeTag::I64,
        ValueModel::I128(_) => TypeTag::I128,
        ValueModel::F32Bits(_) => TypeTag::F32,
        ValueModel::F64Bits(_) => TypeTag::F64,
        ValueModel::Str(_) => TypeTag::Str,
        ValueModel::Text(_) => TypeTag::Text,
    }
}

/// The size, in bytes, that one slot of the given type contributes to a
/// container's footprint.
pub open spec fn tag_size(t: TypeTag) -> nat {
    match t {
        TypeTag::Bool => 1,
        TypeTag::U8 => 1,
        TypeTag::U16 => 2,
        TypeTag::U32 => 4,
        TypeTag::U64 => 8,
        TypeTag::U128 => 16,
        TypeTag::I8 => 1,
        TypeTag::I16 => 2,
        TypeTag::I32 => 4,
        TypeTag::I64 => 8,
        TypeTag::I128 => 16,
        TypeTag::F32 => 4,
        TypeTag::F64 => 8,
        TypeTag::Str => 16,
        TypeTag::Text => 24,
    }
}

impl Value {
    /// The tag that names this value's type.
    pub fn tag(&self) -> (t: TypeTag)
        ensures
            t == tag_of(self@),
    {
        match self {
            Value::Bool(_) => TypeTag::Bool,
            Value::U8(_) => TypeTag::U8,
            Value::U16(_) => TypeTag::U16,
            Value::U32(_) => TypeTag::U32,
            Value::U64(_) => TypeTag::U64,
            Value::U128(_) => TypeTag::U128,
            Value::I8(_) => TypeTag::I8,
            Value::I16(_) => TypeTag::I16,
            Value::I32(_) => TypeTag::I32,
            Value::I64(_) => TypeTag::I64,
            Value::I128(_) => TypeTag::I128,
            Value::F32Bits(_) => TypeTag::F32,
            Value::F64Bits(_) => TypeTag::F64,
            Value::Str(_) => TypeTag::Str,
            Value::Text(_) => TypeTag::Text,
        }
    }
}

/// The size, in bytes, of one slot of the given type.
pub fn size_of_tag(t: TypeTag) -> (n: usize)
    ensures
        n == tag_size(t),
{
    match t {
        TypeTag::Bool => 1,
        TypeTag::U8 => 1,
        TypeTag::U16 => 2,
        TypeTag::U32 => 4,
        TypeTag::U64 => 8,
        TypeTag::U128 => 16,
        TypeTag::I8 => 1,
        TypeTag::I16 => 2,
        TypeTag::I32 => 4,
        TypeTag::I64 => 8,
        TypeTag::I128 => 16,
        TypeTag::F32 => 4,
        TypeTag::F64 => 8,
        TypeTag::Str => 16,
        TypeTag::Text => 24,
    }
}

/// Relies on str's `==`: two string slices are equal exactly when their
/// character sequences are.
#[verifier::external_body]
fn str_eq(a: &str, b: &str) -> (r: bool)
    ensures
        r == (a@ == b@),
{
    a == b
}

impl PartialEq for Value {
    fn eq(&self, other: &Self) -> (r: bool) {
        match (self, other) {
            (Value::Bool(a), Value::Bool(b)) => a == b,
            (Value::U8(a), Value::U8(b)) => a == b,
            (Value::U16(a), Value::U16(b)) => a == b,
            (Value::U32(a), Value::U32(b)) => a == b,
            (Value::U64(a), Value::U64(b)) => a == b,
            (Value::U128(a), Value::U128(b)) => a == b,
            (Value::I8(a), Value::I8(b)) => a == b,
            (Value::I16(a), Value::I16(b)) => a == b,
            (Value::I32(a), Value::I32(b)) => a == b,
            (Value::I64(a), Value::I64(b)) => a == b,
            (Value::I128(a), Value::I128(b)) => a == b,
            (Value::F32Bits(a), Value::F32Bits(b)) => a == b,
            (Value::F64Bits(a), Value::F64Bits(b)) => a == b,
            (Value::Str(a), Value::Str(b)) => str_eq(a, b),
            (Value::Text(a), Value::Text(b)) => *a == *b,
            _ => false,
        }
    }
}

impl vstd::std_specs::cmp::PartialEqSpecImpl for Value {
    open spec fn obeys_eq_spec() -> bool {
        true
    }

    open spec fn eq_spec(&self, other: &Self) -> bool {
        self@ == other@
    }
}

} // verus!
