//! The decoded values a query result can carry, and their type tags.

use vstd::prelude::*;

verus! {

/// The closed set of runtime types a decoded value can have.
///
/// A shape entry and a target field each carry one of these tags; a value's
/// tag is derived from its variant. `Null` is the tag of an absent value.
#[derive(Debug, Clone, Copy, PartialEq, Eq, Structural)]
pub enum TypeTag {
    Str,
    Int16,
    Int32,
    Int64,
    BigInt,
    Bool,
    Identifier,
    Bytes,
    Tuple,
    Object,
    Null,
}

/// An arbitrary-precision integer in base-10000 digit form: the magnitude is
/// the sum of `digits[k] * 10000^(weight - k)` over the digit positions,
/// negated when `negative` is set.
#[derive(Debug, PartialEq, Eq)]
pub struct BigIntValue {
    pub negative: bool,
    pub weight: i16,
    pub digits: Vec<u16>,
}

/// One named field of an object value; the value is absent for fields the
/// server projected but left unset.
#[derive(Debug, PartialEq, Eq)]
pub struct ObjectField {
    pub name: String,
    pub value: Option<Value>,
}

/// A decoded scalar or composite value.
///
/// An identifier is carried as its 128-bit numeric form.
#[derive(Debug, PartialEq, Eq)]
pub enum Value {
    Str(String),
    Int16(i16),
    Int32(i32),
    Int64(i64),
    BigInt(BigIntValue),
    Bool(bool),
    Identifier(u128),
    Bytes(Vec<u8>),
    Tuple(Vec<Value>),
    Object(Vec<ObjectField>),
}

impl Value {
    /// The type tag of this value's variant.
    pub open spec fn spec_tag(&self) -> TypeTag {
        match self {
            Value::Str(_) => TypeTag::Str,
            Value::Int16(_) => TypeTag::Int16,
            Value::Int32(_) => TypeTag::Int32,
            Value::Int64(_) => TypeTag::Int64,
            Value::BigInt(_) => TypeTag::BigInt,
            Value::Bool(_) => TypeTag::Bool,
            Value::Identifier(_) => TypeTag::Identifier,
            Value::Bytes(_) => TypeTag::Bytes,
            Value::Tuple(_) => TypeTag::Tuple,
            Value::Object(_) => TypeTag::Object,
        }
    }

    /// Reports which runtime type this value has.
    pub fn tag(&self) -> (t: TypeTag)
        ensures
            t == self.spec_tag(),
    {
        match self {
            Value::Str(_) => TypeTag::Str,
            Value::Int16(_) => TypeTag::Int16,
            Value::Int32(_) => TypeTag::Int32,
            Value::Int64(_) => TypeTag::Int64,
            Value::BigInt(_) => TypeTag::BigInt,
            Value::Bool(_) => TypeTag::Bool,
            Value::Identifier(_) => TypeTag::Identifier,
            Value::Bytes(_) => TypeTag::Bytes,
            Value::Tuple(_) => TypeTag::Tuple,
            Value::Object(_) => TypeTag::Object,
        }
    }
}

/// The type tag of one result entry: the value's own tag, or `Null` when the
/// entry is absent.
pub open spec fn spec_entry_tag(v: Option<Value>) -> TypeTag {
    match v {
        Option::None => TypeTag::Null,
        Option::Some(x) => x.spec_tag(),
    }
}

/// Reports the runtime type of one result entry.
pub fn entry_tag(v: &Option<Value>) -> (t: TypeTag)
    ensures
        t == spec_entry_tag(*v),
{
    match v {
        Option::None => TypeTag::Null,
        Option::Some(x) => x.tag(),
    }
}

/// Whether a value of runtime type `actual` may be assigned to a field
/// declared with type `expected`: the tags must agree exactly.
pub open spec fn spec_assignable(actual: TypeTag, expected: TypeTag) -> bool {
    actual == expected
}

/// Decides assignability of a runtime type to a declared field type.
pub fn assignable(actual: TypeTag, expected: TypeTag) -> (r: bool)
    ensures
        r == spec_assignable(actual, expected),
{
    actual == expected
}

} // verus!
