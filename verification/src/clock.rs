//! The clock of one span.

use std::time::Duration;
use std::time::Instant;
use vstd::prelude::*;

verus! {

/// `std::time::Instant`: a reading of the monotonic clock. Nothing of what
/// it holds is visible in contracts.
#[verifier::external_type_specification]
#[verifier::external_body]
pub struct ExInstant(Instant);

/// `Instant::now` reads the clock. The reading depends on when the call is
/// made, so nothing is claimed of it.
pub assume_specification[ Instant::now ]() -> (now: Instant)
;

/// The time from the reading `earlier` to `reading`, as
/// `Instant::saturating_duration_since` gives it: a zero duration where
/// `earlier` is the later of the two.
pub uninterp spec fn time_between(reading: Instant, earlier: Instant) -> Duration;

/// The whole milliseconds in a length of time, as `Duration::as_millis`
/// gives them.
pub uninterp spec fn whole_millis(length: Duration) -> u128;

/// `Instant::saturating_duration_since` is the time from `earlier` to the
/// reading, or a zero duration where `earlier` is the later one. It
/// depends on the two readings alone; the contract gives the result its
/// name and claims no more.
pub assume_specification[ Instant::saturating_duration_since ](
    reading: &Instant,
    earlier: Instant,
) -> (length: Duration)
    ensures
        length == time_between(*reading, earlier),
;

/// `Duration::as_millis` is the length in whole milliseconds. It depends on
/// the length alone; the contract gives the result its name and claims no
/// bound on it: callers handle every `u128`.
pub assume_specification[ Duration::as_millis ](length: &Duration) -> (millis: u128)
    ensures
        millis == whole_millis(*length),
;

/// A count of milliseconds as a `u64`: itself where it fits, else the
/// largest `u64`.
pub open spec fn saturated_millis(millis: u128) -> u64 {
    if millis > u64::MAX {
        u64::MAX
    } else {
        millis as u64
    }
}

/// Brings a count of milliseconds into a `u64` without wrapping.
pub fn saturating_millis(millis: u128) -> (ms: u64)
    ensures
        ms == saturated_millis(millis),
{
    if millis > u64::MAX as u128 {
        u64::MAX
    } else {
        millis as u64
    }
}

/// Saturation keeps the order of two counts: where the clock's later
/// reading is no smaller than its earlier one, neither is what is reported.
pub proof fn lemma_saturation_keeps_order(earlier: u128, later: u128)
    requires
        earlier <= later,
    ensures
        saturated_millis(earlier) <= saturated_millis(later),
{
}

/// The start point of one span. It is set when the span is first entered
/// and stays as it is from then on.
#[derive(Debug)]
pub struct SpanClock {
    start: Option<Instant>,
}

impl SpanClock {
    /// The start point, if one was recorded.
    pub closed spec fn start(&self) -> Option<Instant> {
        self.start
    }

    /// Whether a start point was recorded.
    pub open spec fn is_started(&self) -> bool {
        self.start() is Some
    }

    /// A clock without a start point.
    pub fn new() -> (clock: Self)
        ensures
            !clock.is_started(),
    {
        SpanClock { start: None }
    }

    /// Whether a start point was recorded.
    pub fn started(&self) -> (started: bool)
        ensures
            started == self.is_started(),
    {
        self.start.is_some()
    }

    /// Records the current time as the start point, unless there is one
    /// already: then the clock stays as it is.
    pub fn start_if_unset(&mut self)
        ensures
            final(self).is_started(),
            old(self).is_started() ==> *final(self) == *old(self),
    {
        if self.start.is_none() {
            self.start = Some(Instant::now());
        }
    }

    /// What the clock reports at the reading `now`: the whole milliseconds
    /// from the start point to `now`, saturated to a `u64`, and 0 where no
    /// start point was recorded.
    pub open spec fn reported_at(&self, now: Instant) -> u64 {
        match self.start() {
            Some(first) => saturated_millis(whole_millis(time_between(now, first))),
            None => 0,
        }
    }

    /// The whole milliseconds from the start point to the reading `now`,
    /// saturated to a `u64`; 0 where no start point was recorded, and where
    /// `now` was read before it.
    pub fn elapsed_at(&self, now: Instant) -> (ms: u64)
        ensures
            ms == self.reported_at(now),
    {
        match &self.start {
            Some(first) => {
                let length = now.saturating_duration_since(*first);
                saturating_millis(length.as_millis())
            },
            None => 0,
        }
    }

    /// The whole milliseconds since the start point, saturated to a `u64`;
    /// 0 where no start point was recorded. The clock is read once, and the
    /// result is what `elapsed_at` gives for that reading.
    pub fn elapsed_ms(&self) -> (ms: u64)
        ensures
            !self.is_started() ==> ms == 0,
            exists|now: Instant| ms == #[trigger] self.reported_at(now),
    {
        let now = Instant::now();
        self.elapsed_at(now)
    }
}

impl Default for SpanClock {
    fn default() -> (clock: Self)
        ensures
            !clock.is_started(),
    {
        SpanClock::new()
    }
}

} // verus!
