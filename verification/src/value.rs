//! The values a span field can hold.

use vstd::prelude::*;

verus! {

/// One recorded field value.
///
/// A float is carried as its IEEE-754 bit pattern, so that two values are
/// the same exactly when their bits are.
#[derive(Debug, PartialEq, Eq)]
pub enum FieldValue {
    /// A signed 64-bit integer.
    I64(i64),
    /// An unsigned 64-bit integer.
    U64(u64),
    /// A double-precision float, as its bit pattern.
    F64(u64),
    /// A boolean.
    Bool(bool),
    /// A string, or the rendering of a value of any other kind.
    Str(String),
}

/// What a [`FieldValue`] stands for in contracts: the same variants, with
/// the string as a sequence of characters.
pub enum FieldModel {
    I64(i64),
    U64(u64),
    F64(u64),
    Bool(bool),
    Str(Seq<char>),
}

impl View for FieldValue {
    type V = FieldModel;

    open spec fn view(&self) -> FieldModel {
        match self {
            FieldValue::I64(v) => FieldModel::I64(*v),
            FieldValue::U64(v) => FieldModel::U64(*v),
            FieldValue::F64(bits) => FieldModel::F64(*bits),
            FieldValue::Bool(b) => FieldModel::Bool(*b),
            FieldValue::Str(s) => FieldModel::Str(s@),
        }
    }
}

impl Clone for FieldValue {
    fn clone(&self) -> (copy: Self)
        ensures
            copy == *self,
    {
        match self {
            FieldValue::I64(v) => FieldValue::I64(*v),
            FieldValue::U64(v) => FieldValue::U64(*v),
            FieldValue::F64(bits) => FieldValue::F64(*bits),
            FieldValue::Bool(b) => FieldValue::Bool(*b),
            FieldValue::Str(s) => FieldValue::Str(s.clone()),
        }
    }
}

/// A named field: what a span's attributes, an update or an event offer,
/// one at a time.
#[derive(Debug, PartialEq, Eq)]
pub struct Field {
    pub name: String,
    pub value: FieldValue,
}

impl Field {
    /// The field `name` with the given value.
    pub fn new(name: &str, value: FieldValue) -> (field: Field)
        ensures
            field.name@ == name@,
            field.value == value,
    {
        Field { name: name.to_owned(), value }
    }
}

impl Clone for Field {
    fn clone(&self) -> (copy: Self)
        ensures
            copy == *self,
    {
        Field { name: self.name.clone(), value: self.value.clone() }
    }
}

} // verus!
