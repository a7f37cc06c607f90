use shape_decode::decode;
use shape_decode::DecodeError;
use shape_decode::ResultShape;
use shape_decode::ResultValue;
use shape_decode::TargetRecordDescriptor;
use shape_decode::value::BigIntValue;
use shape_decode::value::ObjectField;
use shape_decode::TypeTag;
use shape_decode::Value;

const SAMPLE_ID: u128 = 0x9c0f_2b4e_7d1a_4c3b_8e5d_6f70_8192_a3b4;

fn account_shape() -> ResultShape {
    ResultShape::new()
        .field("username".to_owned(), TypeTag::Str)
        .field("id".to_owned(), TypeTag::Identifier)
}

fn account_target() -> TargetRecordDescriptor {
    TargetRecordDescriptor::new()
        .field("username".to_owned(), TypeTag::Str)
        .field("id".to_owned(), TypeTag::Identifier)
}

fn account_values() -> ResultValue {
    ResultValue::new()
        .entry(Some(Value::Str("User_ab12c".to_owned())))
        .entry(Some(Value::Identifier(SAMPLE_ID)))
}

#[test]
fn matching_shape_decodes_in_order() {
    let record = decode(&account_shape(), account_values(), &account_target()).unwrap();
    assert_eq!(record.fields.len(), 2);
    assert_eq!(record.fields[0].name, "username");
    assert_eq!(
        record.fields[0].value,
        Some(Value::Str("User_ab12c".to_owned()))
    );
    assert_eq!(record.fields[1].name, "id");
    assert_eq!(record.fields[1].value, Some(Value::Identifier(SAMPLE_ID)));
}

#[test]
fn reordered_shape_is_wrong_field() {
    let shape = ResultShape::new()
        .field("id".to_owned(), TypeTag::Identifier)
        .field("username".to_owned(), TypeTag::Str);
    let values = ResultValue::new()
        .entry(Some(Value::Identifier(SAMPLE_ID)))
        .entry(Some(Value::Str("User_ab12c".to_owned())));
    let err = decode(&shape, values, &account_target()).unwrap_err();
    assert_eq!(
        err,
        DecodeError::WrongField {
            unexpected: "id".to_owned(),
            expected: "username".to_owned(),
        }
    );
}

#[test]
fn length_difference_is_arity_mismatch() {
    let target = TargetRecordDescriptor::new().field("username".to_owned(), TypeTag::Str);
    let err = decode(&account_shape(), account_values(), &target).unwrap_err();
    assert_eq!(err, DecodeError::ArityMismatch);
}

#[test]
fn arity_is_checked_before_names() {
    // Even with every name different, a length difference reports arity.
    let shape = ResultShape::new().field("other".to_owned(), TypeTag::Bool);
    let values = ResultValue::new().entry(Some(Value::Bool(true)));
    let err = decode(&shape, values, &account_target()).unwrap_err();
    assert_eq!(err, DecodeError::ArityMismatch);
}

#[test]
fn first_name_mismatch_wins() {
    // Names agree at position 0 and disagree at both later positions; the
    // error reports position 1, the first disagreement.
    let shape = ResultShape::new()
        .field("username".to_owned(), TypeTag::Str)
        .field("created".to_owned(), TypeTag::Int64)
        .field("extra".to_owned(), TypeTag::Bool);
    let target = TargetRecordDescriptor::new()
        .field("username".to_owned(), TypeTag::Str)
        .field("id".to_owned(), TypeTag::Identifier)
        .field("flag".to_owned(), TypeTag::Bool);
    let values = ResultValue::new()
        .entry(Some(Value::Str("User_ab12c".to_owned())))
        .entry(Some(Value::Int64(7)))
        .entry(Some(Value::Bool(false)));
    let err = decode(&shape, values, &target).unwrap_err();
    assert_eq!(
        err,
        DecodeError::WrongField {
            unexpected: "created".to_owned(),
            expected: "id".to_owned(),
        }
    );
}

#[test]
fn incompatible_value_is_type_mismatch() {
    let values = ResultValue::new()
        .entry(Some(Value::Str("User_ab12c".to_owned())))
        .entry(Some(Value::Int32(9)));
    let err = decode(&account_shape(), values, &account_target()).unwrap_err();
    assert_eq!(
        err,
        DecodeError::TypeMismatch {
            position: 1,
            expected: TypeTag::Identifier,
            actual: TypeTag::Int32,
        }
    );
}

#[test]
fn name_mismatch_is_reported_before_type_mismatch() {
    // At the first bad position the name check comes first, even though the
    // value's type is also incompatible there.
    let shape = ResultShape::new().field("id".to_owned(), TypeTag::Int32);
    let values = ResultValue::new().entry(Some(Value::Int32(5)));
    let target = TargetRecordDescriptor::new().field("username".to_owned(), TypeTag::Str);
    let err = decode(&shape, values, &target).unwrap_err();
    assert_eq!(
        err,
        DecodeError::WrongField {
            unexpected: "id".to_owned(),
            expected: "username".to_owned(),
        }
    );
}

#[test]
fn absent_entry_has_null_type() {
    let shape = ResultShape::new().field("note".to_owned(), TypeTag::Str);
    let values = ResultValue::new().entry(None);
    let target = TargetRecordDescriptor::new().field("note".to_owned(), TypeTag::Str);
    let err = decode(&shape, values, &target).unwrap_err();
    assert_eq!(
        err,
        DecodeError::TypeMismatch {
            position: 0,
            expected: TypeTag::Str,
            actual: TypeTag::Null,
        }
    );
}

#[test]
fn declared_null_field_accepts_absent_entry() {
    let shape = ResultShape::new().field("note".to_owned(), TypeTag::Null);
    let values = ResultValue::new().entry(None);
    let target = TargetRecordDescriptor::new().field("note".to_owned(), TypeTag::Null);
    let record = decode(&shape, values, &target).unwrap();
    assert_eq!(record.fields.len(), 1);
    assert_eq!(record.fields[0].name, "note");
    assert_eq!(record.fields[0].value, None);
}

#[test]
fn empty_shape_decodes_to_empty_record() {
    let record = decode(
        &ResultShape::new(),
        ResultValue::new(),
        &TargetRecordDescriptor::new(),
    )
    .unwrap();
    assert_eq!(record.fields.len(), 0);
}

#[test]
fn decode_twice_gives_identical_results() {
    let first = decode(&account_shape(), account_values(), &account_target());
    let second = decode(&account_shape(), account_values(), &account_target());
    assert_eq!(first, second);

    let shape = ResultShape::new()
        .field("id".to_owned(), TypeTag::Identifier)
        .field("username".to_owned(), TypeTag::Str);
    let make_values = || {
        ResultValue::new()
            .entry(Some(Value::Identifier(SAMPLE_ID)))
            .entry(Some(Value::Str("User_ab12c".to_owned())))
    };
    let first = decode(&shape, make_values(), &account_target());
    let second = decode(&shape, make_values(), &account_target());
    assert_eq!(first, second);
}

#[test]
fn builders_report_their_length() {
    assert_eq!(ResultShape::new().len(), 0);
    assert_eq!(account_shape().len(), 2);
    assert_eq!(account_target().len(), 2);
    assert_eq!(account_values().len(), 2);
    assert_eq!(ResultValue::new().entry(None).len(), 1);
}

#[test]
fn every_variant_reports_its_tag() {
    assert_eq!(Value::Str("x".to_owned()).tag(), TypeTag::Str);
    assert_eq!(Value::Int16(-3).tag(), TypeTag::Int16);
    assert_eq!(Value::Int32(10).tag(), TypeTag::Int32);
    assert_eq!(Value::Int64(1 << 40).tag(), TypeTag::Int64);
    assert_eq!(
        Value::BigInt(BigIntValue {
            negative: false,
            weight: 0,
            digits: vec![20],
        })
        .tag(),
        TypeTag::BigInt
    );
    assert_eq!(Value::Bool(true).tag(), TypeTag::Bool);
    assert_eq!(Value::Identifier(SAMPLE_ID).tag(), TypeTag::Identifier);
    assert_eq!(Value::Bytes(vec![1, 2, 3]).tag(), TypeTag::Bytes);
    assert_eq!(
        Value::Tuple(vec![Value::Str("Hi".to_owned()), Value::Int32(10)]).tag(),
        TypeTag::Tuple
    );
    assert_eq!(
        Value::Object(vec![ObjectField {
            name: "id".to_owned(),
            value: Some(Value::Identifier(SAMPLE_ID)),
        }])
        .tag(),
        TypeTag::Object
    );
}

#[test]
fn composite_values_decode_like_scalars() {
    let shape = ResultShape::new()
        .field("pair".to_owned(), TypeTag::Tuple)
        .field("raw".to_owned(), TypeTag::Bytes);
    let target = TargetRecordDescriptor::new()
        .field("pair".to_owned(), TypeTag::Tuple)
        .field("raw".to_owned(), TypeTag::Bytes);
    let values = ResultValue::new()
        .entry(Some(Value::Tuple(vec![
            Value::Str("Hi".to_owned()),
            Value::Int32(10),
        ])))
        .entry(Some(Value::Bytes(vec![0xde, 0xad])));
    let record = decode(&shape, values, &target).unwrap();
    assert_eq!(
        record.fields[0].value,
        Some(Value::Tuple(vec![
            Value::Str("Hi".to_owned()),
            Value::Int32(10),
        ]))
    );
    assert_eq!(record.fields[1].value, Some(Value::Bytes(vec![0xde, 0xad])));
}
