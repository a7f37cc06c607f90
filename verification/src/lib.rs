//! Positional decoding of server-declared result shapes into statically
//! declared record types.
//!
//! A query result arrives as an ordered *shape* (field names with type tags)
//! together with a value for each field. An application declares, once per
//! record type, an ordered *target record descriptor* naming the fields it
//! expects and their types. [`decode::decode`] matches the two strictly by
//! position and either produces a decoded record or reports exactly where
//! shape and descriptor first disagree.

pub mod decode;
pub mod shape;
pub mod value;

pub use decode::decode;
pub use decode::DecodeError;
pub use decode::DecodedField;
pub use decode::TargetRecord;
pub use shape::FieldDescriptor;
pub use shape::ResultShape;
pub use shape::ResultValue;
pub use shape::TargetRecordDescriptor;
pub use value::TypeTag;
pub use value::Value;
