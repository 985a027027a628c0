//! The lifecycle of a span: what each notification of the host does to the
//! span's own state.
//!
//! The host resolves spans and keeps each span's state; the layer is told
//! of a notification together with the state it concerns, and holds no
//! state of its own. The host tells of a span's creation first and of its
//! close last and once.

use crate::clock::SpanClock;
use crate::fields::apply_fields;
use crate::fields::is_last_write;
use crate::fields::lemma_apply_concat;
use crate::fields::lemma_apply_domain;
use crate::fields::lemma_apply_keeps_rest;
use crate::fields::lemma_apply_last_wins;
use crate::fields::lemma_apply_union;
use crate::fields::names_of;
use crate::fields::FieldMap;
use crate::record::SpanRecord;
use crate::record::ELAPSED_TIME;
use crate::storage::EventStorage;
use crate::value::Field;
use crate::value::FieldModel;
use std::time::Instant;
use vstd::prelude::*;

verus! {

/// What the host keeps for one span from its creation to its close.
#[derive(Debug)]
pub struct SpanState {
    /// The span's fields.
    pub fields: EventStorage,
    /// The span's start point.
    pub clock: SpanClock,
}

/// What became of an event.
#[derive(Clone, Copy, Debug, PartialEq, Eq)]
pub enum EventOutcome {
    /// Its fields were written to the current span.
    Recorded,
    /// No span was current: the event belongs to none and its fields are
    /// kept nowhere. This is for a diagnostic, not for a record.
    NoCurrentSpan,
}

/// The layer that gathers the fields of spans and hands out a record when a
/// span closes.
#[derive(Clone, Copy, Debug)]
pub struct SplunkHecLayer;

/// The fields that a new span starts with: those of its parent, if it has
/// one, with its own attributes written over them.
pub open spec fn creation_fields(parent: Option<FieldMap>, attrs: Seq<Field>) -> FieldMap {
    match parent {
        Some(fields) => apply_fields(fields, attrs),
        None => apply_fields(Map::empty(), attrs),
    }
}

/// The fields of the parent's store, where the new span has a parent.
pub open spec fn parent_fields(parent: Option<&EventStorage>) -> Option<FieldMap> {
    match parent {
        Some(store) => Some(store@),
        None => None,
    }
}

/// A span with a parent starts with the parent's fields, as they are when
/// it is created, and its own attributes; on a shared name its own
/// attribute stands, and among its attributes of one name the last.
pub proof fn lemma_creation_inherits(parent: FieldMap, attrs: Seq<Field>)
    ensures
        creation_fields(Some(parent), attrs) == parent.union_prefer_right(
            creation_fields(None, attrs),
        ),
        creation_fields(Some(parent), attrs).dom() == parent.dom().union(names_of(attrs)),
        forall|i: int| #[trigger]
            is_last_write(attrs, i) ==> creation_fields(Some(parent), attrs)[attrs[i].name@]
                == attrs[i].value@,
        forall|name: Seq<char>|
            #![trigger creation_fields(Some(parent), attrs)[name]]
            !names_of(attrs).contains(name) ==> creation_fields(Some(parent), attrs)[name]
                == parent[name],
{
    lemma_apply_union(parent, attrs);
    lemma_apply_domain(parent, attrs);
    assert forall|i: int| #[trigger] is_last_write(attrs, i) implies creation_fields(
        Some(parent),
        attrs,
    )[attrs[i].name@] == attrs[i].value@ by {
        lemma_apply_last_wins(parent, attrs, i);
    }
    assert forall|name: Seq<char>|
        #![trigger creation_fields(Some(parent), attrs)[name]]
        !names_of(attrs).contains(name) implies creation_fields(Some(parent), attrs)[name]
        == parent[name] by {
        lemma_apply_keeps_rest(parent, attrs, name);
    }
}

/// After any writes a span's fields are the parent's fields as they were at
/// its creation, then its attributes, then what was written to the span
/// itself, in that order: they depend on these three alone, and so not on
/// what is written to the parent after the creation.
pub proof fn lemma_fields_are_snapshot_and_own_writes(
    parent: Option<FieldMap>,
    attrs: Seq<Field>,
    written: Seq<Field>,
)
    ensures
        apply_fields(creation_fields(parent, attrs), written) == creation_fields(
            parent,
            attrs + written,
        ),
{
    match parent {
        Some(fields) => lemma_apply_concat(fields, attrs, written),
        None => lemma_apply_concat(Map::empty(), attrs, written),
    }
}

impl SplunkHecLayer {
    /// A span is created: it gets a copy of the fields that its parent has
    /// at this moment, or none where it has no parent, with its attributes
    /// written over them, and a clock that was not started. The copy is
    /// detached: the parent is only read, and what is written to it later
    /// does not reach the new span.
    pub fn on_new_span(&self, parent: Option<&EventStorage>, attrs: &[Field]) -> (span: SpanState)
        ensures
            span.fields@ == creation_fields(parent_fields(parent), attrs@),
            !span.clock.is_started(),
    {
        let mut fields = match parent {
            Some(store) => store.clone(),
            None => EventStorage::new(),
        };
        fields.merge(attrs);
        SpanState { fields, clock: SpanClock::new() }
    }

    /// An event occurs: its fields are written to the current span, in
    /// place. Where no span is current, nothing is written and the outcome
    /// says so.
    pub fn on_event(&self, current: Option<&mut SpanState>, fields: &[Field]) -> (outcome:
        EventOutcome)
        ensures
            match current {
                Some(span) => {
                    &&& outcome == EventOutcome::Recorded
                    &&& final(span).fields@ == apply_fields(span.fields@, fields@)
                    &&& final(span).clock == span.clock
                },
                None => outcome == EventOutcome::NoCurrentSpan,
            },
    {
        match current {
            Some(span) => {
                span.fields.merge(fields);
                EventOutcome::Recorded
            },
            None => EventOutcome::NoCurrentSpan,
        }
    }

    /// Fields of a span are updated: each is written over the field of its
    /// name, or added.
    pub fn on_record(&self, span: &mut SpanState, values: &[Field])
        ensures
            final(span).fields@ == apply_fields(old(span).fields@, values@),
            final(span).clock == old(span).clock,
    {
        span.fields.merge(values);
    }

    /// A span is entered: the first time, its clock starts. Entering it
    /// again changes nothing.
    pub fn on_enter(&self, span: &mut SpanState)
        ensures
            final(span).clock.is_started(),
            old(span).clock.is_started() ==> *final(span) == *old(span),
            final(span).fields == old(span).fields,
    {
        span.clock.start_if_unset();
    }

    /// A span closes: its duration is written under [`ELAPSED_TIME`] and
    /// the record is handed out. The duration is what the span's clock
    /// reports for one reading of the time, counted from the first entry; it
    /// is 0 where the span was never entered. The state is used up.
    pub fn on_close(&self, span: SpanState) -> (record: SpanRecord)
        ensures
            record@ == span.fields@.insert(ELAPSED_TIME@, FieldModel::U64(record.elapsed_ms())),
            !span.clock.is_started() ==> record.elapsed_ms() == 0,
            exists|now: Instant| record.elapsed_ms() == #[trigger] span.clock.reported_at(now),
    {
        let elapsed_ms: u64 = span.clock.elapsed_ms();
        span.fields.finalize(elapsed_ms)
    }
}

} // verus!
