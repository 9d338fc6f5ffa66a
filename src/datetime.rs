//! Instants and local calendar times, as plain values. Parsing, the current
//! time and the machine's time zone come from chrono.
use vstd::prelude::*;
use chrono::{Datelike, TimeZone, Timelike};

verus! {

/// An instant in UTC: seconds since the Unix epoch and the nanoseconds
/// within that second.
#[derive(Debug, Clone, Copy, PartialEq, Eq, Structural)]
pub struct UtcInstant {
    pub secs: i64,
    pub nanos: u32,
}

/// A calendar date and wall-clock time in the machine's time zone.
/// `weekday` counts days from Monday (0) to Sunday (6).
#[derive(Debug, Clone, Copy, PartialEq, Eq, Structural)]
pub struct LocalTime {
    pub year: i32,
    pub month: u8,
    pub day: u8,
    pub weekday: u8,
    pub hour: u8,
    pub minute: u8,
}

/// What chrono reads from a relaxed RFC 3339 date-time string.
pub uninterp spec fn instant_of(s: Seq<char>) -> Option<UtcInstant>;

/// Relies on chrono's `FromStr` for `DateTime<Utc>` (relaxed RFC 3339, the
/// offset converted to UTC) and on `timestamp` / `timestamp_subsec_nanos`.
#[verifier::external_body]
pub(crate) fn parse_instant(s: &str) -> (r: Option<UtcInstant>)
    ensures
        r == instant_of(s@),
{
    match s.parse::<chrono::DateTime<chrono::Utc>>() {
        Ok(d) => Some(UtcInstant { secs: d.timestamp(), nanos: d.timestamp_subsec_nanos() }),
        Err(_) => None,
    }
}

/// Relies on chrono's `Utc::now`: the current instant.
#[verifier::external_body]
pub(crate) fn now() -> (r: UtcInstant) {
    let d = chrono::Utc::now();
    UtcInstant { secs: d.timestamp(), nanos: d.timestamp_subsec_nanos() }
}

/// Relies on chrono's `DateTime::from_timestamp` (none for an instant out of
/// its range) and `Local::from_utc_datetime`, whose fields lie in the usual
/// calendar ranges.
#[verifier::external_body]
pub(crate) fn local_time(t: UtcInstant) -> (r: Option<LocalTime>)
    ensures
        r matches Some(l) ==> l.wf(),
{
    let utc = chrono::DateTime::from_timestamp(t.secs, t.nanos)?;
    let l = chrono::Local.from_utc_datetime(&utc.naive_utc());
    Some(LocalTime {
        year: l.year(),
        month: l.month() as u8,
        day: l.day() as u8,
        weekday: l.weekday().num_days_from_monday() as u8,
        hour: l.hour() as u8,
        minute: l.minute() as u8,
    })
}

impl UtcInstant {
    pub open spec fn at_or_before_spec(self, other: UtcInstant) -> bool {
        self.secs < other.secs || (self.secs == other.secs && self.nanos <= other.nanos)
    }

    pub fn at_or_before(&self, other: &UtcInstant) -> (r: bool)
        ensures
            r == self.at_or_before_spec(*other),
    {
        self.secs < other.secs || (self.secs == other.secs && self.nanos <= other.nanos)
    }
}

impl LocalTime {
    pub open spec fn wf(self) -> bool {
        &&& 1 <= self.month <= 12
        &&& 1 <= self.day <= 31
        &&& self.weekday < 7
        &&& self.hour < 24
        &&& self.minute < 60
    }

    /// The calendar date of `self` is strictly before that of `other`.
    pub open spec fn date_before_spec(self, other: LocalTime) -> bool {
        self.year < other.year || (self.year == other.year && (self.month < other.month || (
        self.month == other.month && self.day < other.day)))
    }

    pub fn date_before(&self, other: &LocalTime) -> (r: bool)
        ensures
            r == self.date_before_spec(*other),
    {
        self.year < other.year || (self.year == other.year && (self.month < other.month || (
        self.month == other.month && self.day < other.day)))
    }
}

} // verus!
