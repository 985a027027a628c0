//! The field aggregation and lifecycle engine of a telemetry collector for
//! nested spans.
//!
//! A span gathers named fields from its creation to its close: it starts
//! with a copy of its parent's fields and its own attributes, takes the
//! fields of updates and of the events that occur while it is current, and
//! when it closes its duration is added and the whole is handed out as one
//! record.
//!
//! - [`value`]: the values a field can hold.
//! - [`fields`]: the model of a field set and of writing fields into it,
//!   with the laws of that.
//! - [`storage`]: the field store of one span.
//! - [`clock`]: the clock of one span.
//! - [`record`]: the record of a closed span.
//! - [`layer`]: what each notification of a span's life does.
//!
//! Resolving spans, keeping their state and printing records is the
//! host's part. The library is told of each notification together with the
//! state that it concerns.

pub mod clock;
pub mod fields;
pub mod layer;
pub mod record;
pub mod storage;
pub mod value;

pub use clock::SpanClock;
pub use layer::EventOutcome;
pub use layer::SpanState;
pub use layer::SplunkHecLayer;
pub use record::SpanRecord;
pub use record::ELAPSED_TIME;
pub use storage::EventStorage;
pub use value::Field;
pub use value::FieldModel;
pub use value::FieldValue;
