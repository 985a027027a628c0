//! The record of a closed span.

use crate::fields::apply_fields;
use crate::fields::distinct_names;
use crate::fields::FieldMap;
use crate::storage::EventStorage;
use crate::value::Field;
use crate::value::FieldModel;
use crate::value::FieldValue;
use vstd::prelude::*;

verus! {

/// The name of the field that holds a closed span's duration.
pub const ELAPSED_TIME: &'static str = "elapsed_time";

/// The final fields of a closed span. It always holds the duration, under
/// [`ELAPSED_TIME`], as an unsigned count of milliseconds, and it has no
/// operation that changes it.
#[derive(Debug)]
pub struct SpanRecord {
    fields: EventStorage,
    elapsed_ms: u64,
}

impl View for SpanRecord {
    type V = FieldMap;

    /// The fields by name, the duration among them.
    closed spec fn view(&self) -> FieldMap {
        self.fields@
    }
}

impl SpanRecord {
    #[verifier::type_invariant]
    spec fn well_formed(&self) -> bool {
        &&& self.fields@.contains_key(ELAPSED_TIME@)
        &&& self.fields@[ELAPSED_TIME@] == FieldModel::U64(self.elapsed_ms)
    }

    /// The duration that the record was closed with.
    pub closed spec fn elapsed_ms(&self) -> u64 {
        self.elapsed_ms
    }

    /// The duration in milliseconds: the value of the field
    /// [`ELAPSED_TIME`].
    pub fn elapsed_time(&self) -> (ms: u64)
        ensures
            ms == self.elapsed_ms(),
            self@.contains_key(ELAPSED_TIME@),
            self@[ELAPSED_TIME@] == FieldModel::U64(ms),
    {
        proof {
            use_type_invariant(self);
        }
        self.elapsed_ms
    }

    /// The fields, each name once, in no particular order.
    pub fn events(&self) -> (entries: &Vec<Field>)
        ensures
            distinct_names(entries@),
            self@ == apply_fields(Map::empty(), entries@),
    {
        self.fields.events()
    }

    /// The value under `name`, if the record has that field.
    pub fn get(&self, name: &str) -> (found: Option<&FieldValue>)
        ensures
            match found {
                Some(value) => self@.contains_key(name@) && self@[name@] == value@,
                None => !self@.contains_key(name@),
            },
    {
        self.fields.get(name)
    }
}

impl EventStorage {
    /// Closes the store: writes the duration under [`ELAPSED_TIME`], over a
    /// field of that name if there is one, and gives the record.
    pub fn finalize(self, elapsed_ms: u64) -> (record: SpanRecord)
        ensures
            record@ == self@.insert(ELAPSED_TIME@, FieldModel::U64(elapsed_ms)),
            record.elapsed_ms() == elapsed_ms,
    {
        let mut fields = self;
        fields.record_u64(ELAPSED_TIME, elapsed_ms);
        SpanRecord { fields, elapsed_ms }
    }
}

} // verus!
