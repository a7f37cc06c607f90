//! Result shapes, result values and target record descriptors.

use vstd::prelude::*;

use crate::value::TypeTag;
use crate::value::Value;

verus! {

/// The mathematical view of one declared field: its name as a character
/// sequence and its type tag.
pub ghost struct FieldModel {
    pub name: Seq<char>,
    pub tag: TypeTag,
}

/// One declared field: a name paired with the type the field carries.
///
/// Used both in a server-reported [`ResultShape`] and in an
/// application-declared [`TargetRecordDescriptor`].
#[derive(Debug)]
pub struct FieldDescriptor {
    pub name: String,
    pub tag: TypeTag,
}

impl View for FieldDescriptor {
    type V = FieldModel;

    open spec fn view(&self) -> FieldModel {
        FieldModel { name: self.name@, tag: self.tag }
    }
}

/// The server-declared shape of one query result: an ordered sequence of
/// named, typed fields. Immutable for the duration of one decode.
#[derive(Debug)]
pub struct ResultShape {
    pub fields: Vec<FieldDescriptor>,
}

impl View for ResultShape {
    type V = Seq<FieldModel>;

    open spec fn view(&self) -> Seq<FieldModel> {
        self.fields@.map_values(|f: FieldDescriptor| f@)
    }
}

impl ResultShape {
    /// An empty shape, to be extended with [`ResultShape::field`].
    pub fn new() -> (r: Self)
        ensures
            r@ == Seq::<FieldModel>::empty(),
    {
        let r = ResultShape { fields: Vec::new() };
        proof {
            assert(r@ =~= Seq::<FieldModel>::empty());
        }
        r
    }

    /// This shape extended at the end with one more field.
    pub fn field(self, name: String, tag: TypeTag) -> (r: Self)
        ensures
            r@ == self@.push(FieldModel { name: name@, tag }),
    {
        let ghost before = self@;
        let mut fields = self.fields;
        fields.push(FieldDescriptor { name, tag });
        let r = ResultShape { fields };
        proof {
            assert(r@ =~= before.push(FieldModel { name: name@, tag }));
        }
        r
    }

    /// The number of fields in this shape.
    pub fn len(&self) -> (n: usize)
        ensures
            n == self@.len(),
    {
        self.fields.len()
    }
}

/// The application-declared, ordered description of the record type a result
/// should decode into: one `(name, type)` entry per field, declared once per
/// record type.
#[derive(Debug)]
pub struct TargetRecordDescriptor {
    pub fields: Vec<FieldDescriptor>,
}

impl View for TargetRecordDescriptor {
    type V = Seq<FieldModel>;

    open spec fn view(&self) -> Seq<FieldModel> {
        self.fields@.map_values(|f: FieldDescriptor| f@)
    }
}

impl TargetRecordDescriptor {
    /// An empty descriptor, to be extended with
    /// [`TargetRecordDescriptor::field`].
    pub fn new() -> (r: Self)
        ensures
            r@ == Seq::<FieldModel>::empty(),
    {
        let r = TargetRecordDescriptor { fields: Vec::new() };
        proof {
            assert(r@ =~= Seq::<FieldModel>::empty());
        }
        r
    }

    /// This descriptor extended at the end with one more declared field.
    pub fn field(self, name: String, tag: TypeTag) -> (r: Self)
        ensures
            r@ == self@.push(FieldModel { name: name@, tag }),
    {
        let ghost before = self@;
        let mut fields = self.fields;
        fields.push(FieldDescriptor { name, tag });
        let r = TargetRecordDescriptor { fields };
        proof {
            assert(r@ =~= before.push(FieldModel { name: name@, tag }));
        }
        r
    }

    /// The number of declared fields.
    pub fn len(&self) -> (n: usize)
        ensures
            n == self@.len(),
    {
        self.fields.len()
    }
}

/// The values of one query result, positionally aligned with its
/// [`ResultShape`]: one optional value per shape field, `None` where the
/// server sent no value.
#[derive(Debug)]
pub struct ResultValue {
    pub entries: Vec<Option<Value>>,
}

impl View for ResultValue {
    type V = Seq<Option<Value>>;

    open spec fn view(&self) -> Seq<Option<Value>> {
        self.entries@
    }
}

impl ResultValue {
    /// An empty value row, to be extended with [`ResultValue::entry`].
    pub fn new() -> (r: Self)
        ensures
            r@ == Seq::<Option<Value>>::empty(),
    {
        ResultValue { entries: Vec::new() }
    }

    /// This row extended at the end with one more entry.
    pub fn entry(self, v: Option<Value>) -> (r: Self)
        ensures
            r@ == self@.push(v),
    {
        let mut entries = self.entries;
        entries.push(v);
        ResultValue { entries }
    }

    /// The number of entries in this row.
    pub fn len(&self) -> (n: usize)
        ensures
            n == self@.len(),
    {
        self.entries.len()
    }
}

} // verus!
