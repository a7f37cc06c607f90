//! The positional shape decoder.
//!
//! [`decode`] validates a server-declared [`ResultShape`] against an
//! application-declared [`TargetRecordDescriptor`] strictly position by
//! position, and on success assembles the supplied values into a
//! [`TargetRecord`]. Its whole behaviour is captured by the spec function
//! [`spec_decode`], a pure function of the inputs' views.

use vstd::prelude::*;

use crate::shape::FieldModel;
use crate::shape::ResultShape;
use crate::shape::ResultValue;
use crate::shape::TargetRecordDescriptor;
use crate::value::assignable;
use crate::value::entry_tag;
use crate::value::spec_assignable;
use crate::value::spec_entry_tag;
use crate::value::TypeTag;
use crate::value::Value;

verus! {

/// Why one decode call failed. Every failure is terminal for the call: no
/// partial record is ever returned.
#[derive(Debug, PartialEq, Eq)]
pub enum DecodeError {
    /// Shape and target descriptor differ in length; reported before any
    /// field is compared.
    ArityMismatch,
    /// At the first disagreeing position the shape holds `unexpected` where
    /// the target declared `expected`.
    WrongField { unexpected: String, expected: String },
    /// At `position` the names agree but the value's runtime type `actual`
    /// is not assignable to the declared `expected` type.
    TypeMismatch { position: usize, expected: TypeTag, actual: TypeTag },
}

/// The mathematical view of one decoded field: the declared name and the
/// value assigned to it.
pub ghost struct DecodedFieldModel {
    pub name: Seq<char>,
    pub value: Option<Value>,
}

/// One field of a decoded record: the declared name with the value the
/// result supplied at the same position.
#[derive(Debug, PartialEq, Eq)]
pub struct DecodedField {
    pub name: String,
    pub value: Option<Value>,
}

impl View for DecodedField {
    type V = DecodedFieldModel;

    open spec fn view(&self) -> DecodedFieldModel {
        DecodedFieldModel { name: self.name@, value: self.value }
    }
}

/// A successfully decoded record: one field per target descriptor entry, in
/// declaration order.
#[derive(Debug, PartialEq, Eq)]
pub struct TargetRecord {
    pub fields: Vec<DecodedField>,
}

impl View for TargetRecord {
    type V = Seq<DecodedFieldModel>;

    open spec fn view(&self) -> Seq<DecodedFieldModel> {
        self.fields@.map_values(|f: DecodedField| f@)
    }
}

/// What one decode call means, stated over views: either the decoded fields
/// or one of the three failures together with what it reports.
#[allow(inconsistent_fields)]
pub ghost enum DecodeOutcome {
    Success { fields: Seq<DecodedFieldModel> },
    ArityError,
    FieldError { unexpected: Seq<char>, expected: Seq<char> },
    TypeError { position: int, expected: TypeTag, actual: TypeTag },
}

/// Whether shape, values and target agree at position `i`: equal field
/// names, and a value type assignable to the declared type.
pub open spec fn position_ok(
    shape: Seq<FieldModel>,
    values: Seq<Option<Value>>,
    target: Seq<FieldModel>,
    i: int,
) -> bool {
    &&& shape[i].name == target[i].name
    &&& spec_assignable(spec_entry_tag(values[i]), target[i].tag)
}

/// The record assembled when every position agrees: the target's names with
/// the supplied values, in declaration order.
pub open spec fn decoded_fields(
    values: Seq<Option<Value>>,
    target: Seq<FieldModel>,
) -> Seq<DecodedFieldModel> {
    Seq::new(
        target.len(),
        |j: int| DecodedFieldModel { name: target[j].name, value: values[j] },
    )
}

/// The outcome of scanning positions `i..` left to right, after the arity
/// check has passed: the first disagreement wins, and only a scan that
/// reaches the end succeeds.
pub open spec fn spec_decode_fields(
    shape: Seq<FieldModel>,
    values: Seq<Option<Value>>,
    target: Seq<FieldModel>,
    i: int,
) -> DecodeOutcome
    decreases shape.len() - i,
{
    if i >= shape.len() {
        DecodeOutcome::Success { fields: decoded_fields(values, target) }
    } else if shape[i].name != target[i].name {
        DecodeOutcome::FieldError { unexpected: shape[i].name, expected: target[i].name }
    } else if !spec_assignable(spec_entry_tag(values[i]), target[i].tag) {
        DecodeOutcome::TypeError {
            position: i,
            expected: target[i].tag,
            actual: spec_entry_tag(values[i]),
        }
    } else {
        spec_decode_fields(shape, values, target, i + 1)
    }
}

/// The outcome of one decode, as a function of the inputs' views alone.
pub open spec fn spec_decode(
    shape: Seq<FieldModel>,
    values: Seq<Option<Value>>,
    target: Seq<FieldModel>,
) -> DecodeOutcome {
    if shape.len() != target.len() {
        DecodeOutcome::ArityError
    } else {
        spec_decode_fields(shape, values, target, 0)
    }
}

/// The outcome an executable result denotes, lifting record and error to
/// their views.
pub open spec fn outcome_of(r: Result<TargetRecord, DecodeError>) -> DecodeOutcome {
    match r {
        Result::Ok(rec) => DecodeOutcome::Success { fields: rec@ },
        Result::Err(DecodeError::ArityMismatch) => DecodeOutcome::ArityError,
        Result::Err(DecodeError::WrongField { unexpected, expected }) => DecodeOutcome::FieldError {
            unexpected: unexpected@,
            expected: expected@,
        },
        Result::Err(DecodeError::TypeMismatch { position, expected, actual }) => DecodeOutcome::TypeError {
            position: position as int,
            expected,
            actual,
        },
    }
}

/// A scan whose first `i` positions agree reports the same outcome whether
/// it starts at position `0` or at position `i`.
proof fn lemma_scan_prefix(
    shape: Seq<FieldModel>,
    values: Seq<Option<Value>>,
    target: Seq<FieldModel>,
    i: int,
)
    requires
        0 <= i <= shape.len(),
        forall|j: int| 0 <= j < i ==> position_ok(shape, values, target, j),
    ensures
        spec_decode_fields(shape, values, target, 0) == spec_decode_fields(
            shape,
            values,
            target,
            i,
        ),
    decreases i,
{
    if i > 0 {
        lemma_scan_prefix(shape, values, target, i - 1);
        assert(position_ok(shape, values, target, i - 1));
    }
}

/// Decodes one result row into the declared target record type.
///
/// Shape and target are matched strictly by position, never by name lookup:
/// a length difference is `ArityMismatch`, the first position whose names
/// differ is `WrongField`, the first position whose value type is not
/// assignable to the declared type is `TypeMismatch`, and when every
/// position agrees the record carries the supplied values under the
/// declared names, in order. [`spec_decode`] states exactly which of these
/// happens for every input.
pub fn decode(
    shape: &ResultShape,
    values: ResultValue,
    target: &TargetRecordDescriptor,
) -> (r: Result<TargetRecord, DecodeError>)
    requires
        values@.len() == shape@.len(),
    ensures
        outcome_of(r) == spec_decode(shape@, values@, target@),
{
    let ghost s = shape@;
    let ghost v = values@;
    let ghost t = target@;
    let n = shape.fields.len();
    if n != target.fields.len() {
        return Result::Err(DecodeError::ArityMismatch);
    }
    let mut i: usize = 0;
    while i < n
        invariant
            i <= n,
            n == s.len(),
            n == t.len(),
            v.len() == n,
            s == shape@,
            v == values@,
            t == target@,
            forall|j: int| 0 <= j < i ==> position_ok(s, v, t, j),
        decreases n - i,
    {
        let shape_name = &shape.fields[i].name;
        let target_name = &target.fields[i].name;
        if !(*shape_name == *target_name) {
            proof {
                lemma_scan_prefix(s, v, t, i as int);
            }
            return Result::Err(DecodeError::WrongField {
                unexpected: shape_name.clone(),
                expected: target_name.clone(),
            });
        }
        let actual = entry_tag(&values.entries[i]);
        let expected = target.fields[i].tag;
        if !assignable(actual, expected) {
            proof {
                lemma_scan_prefix(s, v, t, i as int);
            }
            return Result::Err(DecodeError::TypeMismatch { position: i, expected, actual });
        }
        i = i + 1;
    }
    proof {
        lemma_scan_prefix(s, v, t, n as int);
    }
    let mut entries = values.entries;
    let mut fields: Vec<DecodedField> = Vec::new();
    let mut k: usize = 0;
    while k < n
        invariant
            k <= n,
            n == t.len(),
            v.len() == n,
            t == target@,
            entries@ == v.subrange(k as int, n as int),
            fields@.len() == k,
            forall|j: int| 0 <= j < k ==> fields@[j]@ == (DecodedFieldModel {
                name: t[j].name,
                value: v[j],
            }),
        decreases n - k,
    {
        let value = entries.remove(0);
        let name = target.fields[k].name.clone();
        fields.push(DecodedField { name, value });
        proof {
            assert(entries@ =~= v.subrange(k + 1 as int, n as int));
        }
        k = k + 1;
    }
    let rec = TargetRecord { fields };
    proof {
        assert(rec@ =~= decoded_fields(v, t));
    }
    Result::Ok(rec)
}

/// When shape and target agree in names throughout and every supplied value
/// is assignable to its declared type, decoding succeeds and the record
/// holds exactly the supplied values under the target's names, in order.
pub proof fn lemma_decode_success(
    shape: Seq<FieldModel>,
    values: Seq<Option<Value>>,
    target: Seq<FieldModel>,
)
    requires
        values.len() == shape.len(),
        shape.len() == target.len(),
        forall|i: int| 0 <= i < shape.len() ==> position_ok(shape, values, target, i),
    ensures
        spec_decode(shape, values, target) == (DecodeOutcome::Success {
            fields: decoded_fields(values, target),
        }),
{
    lemma_scan_prefix(shape, values, target, shape.len() as int);
}

/// When shape and target have equal length, agree at every position before
/// `i`, and first disagree in name at position `i`, decoding fails with
/// `WrongField` reporting exactly position `i`'s two names. Nothing is
/// required of positions after `i`: no later position affects the outcome.
pub proof fn lemma_decode_wrong_field(
    shape: Seq<FieldModel>,
    values: Seq<Option<Value>>,
    target: Seq<FieldModel>,
    i: int,
)
    requires
        shape.len() == target.len(),
        0 <= i < shape.len(),
        forall|j: int| 0 <= j < i ==> position_ok(shape, values, target, j),
        shape[i].name != target[i].name,
    ensures
        spec_decode(shape, values, target) == (DecodeOutcome::FieldError {
            unexpected: shape[i].name,
            expected: target[i].name,
        }),
{
    lemma_scan_prefix(shape, values, target, i);
}

/// When shape and target differ in length, decoding fails with
/// `ArityMismatch`, whatever the fields hold: no field comparison enters
/// into the outcome.
pub proof fn lemma_decode_arity_mismatch(
    shape: Seq<FieldModel>,
    values: Seq<Option<Value>>,
    target: Seq<FieldModel>,
)
    requires
        shape.len() != target.len(),
    ensures
        spec_decode(shape, values, target) == DecodeOutcome::ArityError,
{
}

/// When shape and target agree in every name but the value at position `i`
/// is the first whose runtime type is not assignable to its declared type,
/// decoding fails with `TypeMismatch` reporting position `i`, the declared
/// type and the actual type.
pub proof fn lemma_decode_type_mismatch(
    shape: Seq<FieldModel>,
    values: Seq<Option<Value>>,
    target: Seq<FieldModel>,
    i: int,
)
    requires
        shape.len() == target.len(),
        0 <= i < shape.len(),
        forall|j: int| 0 <= j < shape.len() ==> shape[j].name == target[j].name,
        forall|j: int| 0 <= j < i ==> spec_assignable(spec_entry_tag(values[j]), target[j].tag),
        !spec_assignable(spec_entry_tag(values[i]), target[i].tag),
    ensures
        spec_decode(shape, values, target) == (DecodeOutcome::TypeError {
            position: i,
            expected: target[i].tag,
            actual: spec_entry_tag(values[i]),
        }),
{
    assert forall|j: int| 0 <= j < i implies position_ok(shape, values, target, j) by {
        assert(shape[j].name == target[j].name);
    }
    lemma_scan_prefix(shape, values, target, i);
}

/// Decoding has no hidden state: the outcome is a function of the inputs
/// alone, so any two results of decoding the same shape, values and target
/// have the same meaning.
pub proof fn lemma_decode_deterministic(
    shape: Seq<FieldModel>,
    values: Seq<Option<Value>>,
    target: Seq<FieldModel>,
    r1: Result<TargetRecord, DecodeError>,
    r2: Result<TargetRecord, DecodeError>,
)
    requires
        outcome_of(r1) == spec_decode(shape, values, target),
        outcome_of(r2) == spec_decode(shape, values, target),
    ensures
        outcome_of(r1) == outcome_of(r2),
{
}

/// A scan from position `i` succeeds exactly when every position from `i`
/// on agrees.
proof fn lemma_scan_success_iff(
    shape: Seq<FieldModel>,
    values: Seq<Option<Value>>,
    target: Seq<FieldModel>,
    i: int,
)
    requires
        0 <= i <= shape.len(),
        shape.len() == target.len(),
    ensures
        (spec_decode_fields(shape, values, target, i) is Success) <==> (forall|j: int|
            i <= j < shape.len() ==> position_ok(shape, values, target, j)),
    decreases shape.len() - i,
{
    if i < shape.len() {
        lemma_scan_success_iff(shape, values, target, i + 1);
        if position_ok(shape, values, target, i) {
            if spec_decode_fields(shape, values, target, i) is Success {
                assert forall|j: int| i <= j < shape.len() implies position_ok(
                    shape,
                    values,
                    target,
                    j,
                ) by {
                    if j > i {
                        assert(position_ok(shape, values, target, j));
                    }
                }
            }
            if forall|j: int| i <= j < shape.len() ==> position_ok(shape, values, target, j) {
                assert(spec_decode_fields(shape, values, target, i + 1) is Success);
                assert(spec_decode_fields(shape, values, target, i) is Success);
            }
        } else {
            assert(!(spec_decode_fields(shape, values, target, i) is Success));
            assert(!position_ok(shape, values, target, i));
        }
    }
}

/// Decoding succeeds exactly when shape and target have equal length and
/// every position agrees in name and in type assignability.
pub proof fn lemma_decode_success_iff(
    shape: Seq<FieldModel>,
    values: Seq<Option<Value>>,
    target: Seq<FieldModel>,
)
    ensures
        (spec_decode(shape, values, target) is Success) <==> (shape.len() == target.len()
            && forall|i: int| 0 <= i < shape.len() ==> position_ok(shape, values, target, i)),
{
    if shape.len() == target.len() {
        lemma_scan_success_iff(shape, values, target, 0);
    }
}

} // verus!
