//! The field store of one span.

use crate::fields::apply_fields;
use crate::fields::distinct_names;
use crate::fields::lemma_apply_distinct_len;
use crate::fields::lemma_apply_keeps_rest;
use crate::fields::lemma_apply_last_wins;
use crate::fields::lemma_apply_update;
use crate::fields::FieldMap;
use crate::value::Field;
use crate::value::FieldModel;
use crate::value::FieldValue;
use std::fmt::Debug;
use std::fmt::Write;
use vstd::prelude::*;

verus! {

/// The fields of one span: each name once, with the value written last.
///
/// A store is a value of its own. A copy made with `clone` shares nothing
/// with the store it was made from, so what is written to either later
/// does not show in the other.
#[derive(Debug)]
pub struct EventStorage {
    entries: Vec<Field>,
}

impl View for EventStorage {
    type V = FieldMap;

    /// The fields by name.
    open spec fn view(&self) -> FieldMap {
        apply_fields(Map::empty(), self.entries())
    }
}

/// `write!` of std with the format `{:?}`, into a `String`: the text that
/// the value's own `Debug` impl writes. Nothing is claimed of the text.
/// Where the impl reports an error, what it wrote up to there is returned.
#[verifier::external_body]
fn debug_text(value: &dyn Debug) -> (text: String) {
    let mut text = String::new();
    let _ = write!(text, "{:?}", value);
    text
}

/// Writes `name` into `entries`: over the entry of that name where there is
/// one, else as a new last entry.
fn put(entries: &mut Vec<Field>, name: &str, value: FieldValue)
    requires
        distinct_names(old(entries)@),
    ensures
        distinct_names(final(entries)@),
        apply_fields(Map::empty(), final(entries)@) == apply_fields(
            Map::empty(),
            old(entries)@,
        ).insert(name@, value@),
{
    let field = Field::new(name, value);
    let mut i: usize = 0;
    while i < entries.len()
        invariant
            i <= entries.len(),
            *entries == *old(entries),
            distinct_names(entries@),
            field.name@ == name@,
            field.value == value,
            forall|j: int| 0 <= j < i ==> (#[trigger] entries[j]).name@ != name@,
        decreases entries.len() - i,
    {
        if entries[i].name == field.name {
            proof {
                lemma_apply_update(Map::empty(), entries@, i as int, field);
            }
            entries.set(i, field);
            return ;
        }
        i += 1;
    }
    entries.push(field);
    assert(entries@.drop_last() == old(entries)@);
}

impl EventStorage {
    #[verifier::type_invariant]
    spec fn well_formed(&self) -> bool {
        distinct_names(self.entries@)
    }

    /// The entries that the store holds, one for each field. Their order
    /// says nothing.
    pub closed spec fn entries(&self) -> Seq<Field> {
        self.entries@
    }

    /// A store without fields.
    pub fn new() -> (store: Self)
        ensures
            store.entries() == Seq::<Field>::empty(),
            store@ == FieldMap::empty(),
    {
        EventStorage { entries: Vec::new() }
    }

    /// The fields, each name once, in no particular order.
    pub fn events(&self) -> (entries: &Vec<Field>)
        ensures
            entries@ == self.entries(),
            distinct_names(entries@),
    {
        proof {
            use_type_invariant(self);
        }
        &self.entries
    }

    /// The number of fields.
    pub fn len(&self) -> (count: usize)
        ensures
            self@.dom().finite(),
            count == self@.len(),
    {
        proof {
            use_type_invariant(self);
            lemma_apply_distinct_len(self.entries@);
        }
        self.entries.len()
    }

    /// Whether the store has no field.
    pub fn is_empty(&self) -> (empty: bool)
        ensures
            empty == (self@ == FieldMap::empty()),
    {
        proof {
            use_type_invariant(self);
            lemma_apply_distinct_len(self.entries@);
            if self.entries@.len() == 0 {
                assert(self@ =~= FieldMap::empty());
            }
        }
        self.entries.len() == 0
    }

    /// The value under `name`, if the store has that field.
    pub fn get(&self, name: &str) -> (found: Option<&FieldValue>)
        ensures
            match found {
                Some(value) => self@.contains_key(name@) && self@[name@] == value@,
                None => !self@.contains_key(name@),
            },
    {
        proof {
            use_type_invariant(self);
        }
        let key = name.to_owned();
        let mut i: usize = 0;
        while i < self.entries.len()
            invariant
                i <= self.entries.len(),
                distinct_names(self.entries@),
                key@ == name@,
                forall|j: int| 0 <= j < i ==> (#[trigger] self.entries[j]).name@ != name@,
            decreases self.entries.len() - i,
        {
            if self.entries[i].name == key {
                proof {
                    lemma_apply_last_wins(Map::empty(), self.entries@, i as int);
                }
                return Some(&self.entries[i].value);
            }
            i += 1;
        }
        proof {
            lemma_apply_keeps_rest(Map::empty(), self.entries@, name@);
        }
        None
    }

    /// Writes one field: a field of that name is replaced, any other field
    /// stays as it is.
    pub fn record(&mut self, name: &str, value: FieldValue)
        ensures
            final(self)@ == old(self)@.insert(name@, value@),
    {
        proof {
            use_type_invariant(&*self);
        }
        // The entries are rewritten outside the store, which is without
        // fields meanwhile.
        let mut entries: Vec<Field> = Vec::new();
        core::mem::swap(&mut self.entries, &mut entries);
        put(&mut entries, name, value);
        core::mem::swap(&mut self.entries, &mut entries);
    }

    /// Writes a signed integer under `name`.
    pub fn record_i64(&mut self, name: &str, value: i64)
        ensures
            final(self)@ == old(self)@.insert(name@, FieldModel::I64(value)),
    {
        self.record(name, FieldValue::I64(value));
    }

    /// Writes an unsigned integer under `name`.
    pub fn record_u64(&mut self, name: &str, value: u64)
        ensures
            final(self)@ == old(self)@.insert(name@, FieldModel::U64(value)),
    {
        self.record(name, FieldValue::U64(value));
    }

    /// Writes a float, given as its IEEE-754 bit pattern, under `name`.
    pub fn record_f64(&mut self, name: &str, bits: u64)
        ensures
            final(self)@ == old(self)@.insert(name@, FieldModel::F64(bits)),
    {
        self.record(name, FieldValue::F64(bits));
    }

    /// Writes a boolean under `name`.
    pub fn record_bool(&mut self, name: &str, value: bool)
        ensures
            final(self)@ == old(self)@.insert(name@, FieldModel::Bool(value)),
    {
        self.record(name, FieldValue::Bool(value));
    }

    /// Writes a string under `name`.
    pub fn record_str(&mut self, name: &str, value: &str)
        ensures
            final(self)@ == old(self)@.insert(name@, FieldModel::Str(value@)),
    {
        self.record(name, FieldValue::Str(value.to_owned()));
    }

    /// Writes a value of any other kind under `name`, as the string that
    /// its `Debug` impl renders. The field is written whatever the
    /// rendering is; `record_str` is this function for a given text.
    pub fn record_debug(&mut self, name: &str, value: &dyn Debug)
        ensures
            final(self)@[name@] is Str,
            final(self)@ == old(self)@.insert(name@, final(self)@[name@]),
    {
        let text = debug_text(value);
        self.record(name, FieldValue::Str(text));
    }

    /// Writes one field of a list.
    pub fn record_field(&mut self, field: &Field)
        ensures
            final(self)@ == old(self)@.insert(field.name@, field.value@),
    {
        self.record(field.name.as_str(), field.value.clone());
    }

    /// Writes every field of `fields`, in order. Among fields of one name
    /// the last one stays.
    pub fn merge(&mut self, fields: &[Field])
        ensures
            final(self)@ == apply_fields(old(self)@, fields@),
    {
        let mut i: usize = 0;
        while i < fields.len()
            invariant
                i <= fields.len(),
                self@ == apply_fields(old(self)@, fields@.take(i as int)),
            decreases fields.len() - i,
        {
            self.record_field(&fields[i]);
            assert(fields@.take(i + 1).drop_last() == fields@.take(i as int));
            i += 1;
        }
        assert(fields@.take(fields.len() as int) == fields@);
    }
}

impl Default for EventStorage {
    fn default() -> (store: Self)
        ensures
            store@ == FieldMap::empty(),
    {
        EventStorage::new()
    }
}

impl Clone for EventStorage {
    /// A detached copy with the same fields.
    fn clone(&self) -> (copy: Self)
        ensures
            copy.entries() == self.entries(),
            copy@ == self@,
    {
        proof {
            use_type_invariant(self);
        }
        let mut entries: Vec<Field> = Vec::new();
        let mut i: usize = 0;
        while i < self.entries.len()
            invariant
                i <= self.entries.len(),
                entries@ == self.entries@.take(i as int),
            decreases self.entries.len() - i,
        {
            entries.push(self.entries[i].clone());
            i += 1;
        }
        assert(entries@ == self.entries@);
        EventStorage { entries }
    }
}

} // verus!
