//! Points in time: reading the system clock and writing an instant as text
//! for a given offset from UTC.

use std::time::Duration;
use std::time::SystemTime;
use vstd::prelude::*;

verus! {

/// The last second that a `Timestamp` can hold: the end of the year 9999, UTC.
pub const MAX_SECS: u64 = 253_402_300_799;

/// One second, in nanoseconds.
pub const NANOS_PER_SEC: u32 = 1_000_000_000;

/// An instant, counted from 1970-01-01 00:00:00 UTC.
///
/// Every value lies between the epoch and the end of the year 9999, with
/// less than a second in `nanos`.
#[derive(Debug, Clone, Copy, PartialEq, Eq, Structural)]
pub struct Timestamp {
    secs: u64,
    nanos: u32,
}

impl Timestamp {
    #[verifier::type_invariant]
    spec fn in_range(self) -> bool {
        self.secs <= MAX_SECS && self.nanos < NANOS_PER_SEC
    }

    /// Whole seconds since the epoch.
    pub closed spec fn spec_secs(self) -> u64 {
        self.secs
    }

    /// Nanoseconds past the last whole second.
    pub closed spec fn spec_nanos(self) -> u32 {
        self.nanos
    }

    /// The instant `secs` seconds and `nanos` nanoseconds after the epoch, if
    /// a `Timestamp` can hold it.
    pub fn new(secs: u64, nanos: u32) -> (stamp: Option<Timestamp>)
        ensures
            stamp is Some <==> secs <= MAX_SECS && nanos < NANOS_PER_SEC,
            stamp matches Some(t) ==> t.spec_secs() == secs && t.spec_nanos() == nanos,
    {
        if secs <= MAX_SECS && nanos < NANOS_PER_SEC {
            Some(Timestamp { secs, nanos })
        } else {
            None
        }
    }

    /// The epoch itself.
    pub fn epoch() -> (stamp: Timestamp)
        ensures
            stamp.spec_secs() == 0,
            stamp.spec_nanos() == 0,
    {
        Timestamp { secs: 0, nanos: 0 }
    }

    #[verifier::when_used_as_spec(spec_secs)]
    pub fn secs(self) -> (secs: u64)
        ensures
            secs == self.spec_secs(),
            secs <= MAX_SECS,
    {
        proof {
            use_type_invariant(self);
        }
        self.secs
    }

    #[verifier::when_used_as_spec(spec_nanos)]
    pub fn nanos(self) -> (nanos: u32)
        ensures
            nanos == self.spec_nanos(),
            nanos < NANOS_PER_SEC,
    {
        proof {
            use_type_invariant(self);
        }
        self.nanos
    }
}

/// `std::time::SystemTime`: a reading of the system clock, carried as it is.
#[verifier::external_type_specification]
#[verifier::external_body]
pub struct ExSystemTime(SystemTime);

/// `SystemTime::now` reads the system clock. Nothing is claimed of the
/// reading: two calls may differ in any way.
pub assume_specification[ SystemTime::now ]() -> (now: SystemTime);

/// `Duration::as_secs` gives the whole seconds of a duration. Nothing is
/// claimed of the number.
pub assume_specification[ Duration::as_secs ](span: &Duration) -> (secs: u64);

/// `Duration::subsec_nanos` gives the part of a duration below one second,
/// in nanoseconds, which std documents as less than one billion.
pub assume_specification[ Duration::subsec_nanos ](span: &Duration) -> (nanos: u32)
    ensures
        nanos < NANOS_PER_SEC,
;

/// `SystemTime::duration_since`, measured from `UNIX_EPOCH`: the time that has
/// passed since the epoch, or `None` where the reading lies before it.
/// Nothing is claimed of which of the two comes back.
#[verifier::external_body]
fn since_epoch(reading: &SystemTime) -> (span: Option<Duration>) {
    reading.duration_since(std::time::UNIX_EPOCH).ok()
}

/// One day, in seconds. Local time differs from UTC by less.
pub const DAY_SECS: i32 = 86_400;

/// How far a local time is ahead of UTC, in seconds; negative to the west.
///
/// Every value is less than a day, either way.
#[derive(Debug, Clone, Copy, PartialEq, Eq, Structural)]
pub struct UtcOffset {
    secs: i32,
}

impl UtcOffset {
    #[verifier::type_invariant]
    spec fn in_range(self) -> bool {
        -DAY_SECS < self.secs < DAY_SECS
    }

    /// The seconds that local time is ahead of UTC.
    pub closed spec fn spec_secs(self) -> i32 {
        self.secs
    }

    /// The offset of `secs` seconds east of UTC, if it is less than a day.
    pub fn new(secs: i32) -> (offset: Option<UtcOffset>)
        ensures
            offset is Some <==> -DAY_SECS < secs < DAY_SECS,
            offset matches Some(o) ==> o.spec_secs() == secs,
    {
        if -DAY_SECS < secs && secs < DAY_SECS {
            Some(UtcOffset { secs })
        } else {
            None
        }
    }

    /// UTC itself.
    pub fn utc() -> (offset: UtcOffset)
        ensures
            offset.spec_secs() == 0,
    {
        UtcOffset { secs: 0 }
    }

    #[verifier::when_used_as_spec(spec_secs)]
    pub fn secs(self) -> (secs: i32)
        ensures
            secs == self.spec_secs(),
            -DAY_SECS < secs < DAY_SECS,
    {
        proof {
            use_type_invariant(self);
        }
        self.secs
    }
}

/// The text that chrono writes for the instant `secs` seconds and `nanos`
/// nanoseconds after the epoch, as the date, the time and the offset of a
/// place whose clocks are `offset_secs` seconds ahead of UTC.
pub uninterp spec fn instant_text(secs: u64, nanos: u32, offset_secs: i32) -> Seq<char>;

/// Writes an instant as the date and time at a fixed offset from UTC,
/// followed by that offset, through `chrono::DateTime::from_timestamp`,
/// `chrono::FixedOffset::east_opt`, `DateTime::with_timezone` and the
/// `Display` of the result.
///
/// The text is a function of the three numbers alone, and is named
/// `instant_text`. Within the required ranges both constructors give a
/// value: the day number stays far inside chrono's calendar, `nanos` is below
/// one second, and `east_opt` takes every offset of less than a day. A fixed
/// offset is its own offset at every instant, so the conversion looks
/// nothing up and always returns.
#[verifier::external_body]
fn text_at_offset(secs: i64, nanos: u32, offset_secs: i32) -> (text: String)
    requires
        0 <= secs <= MAX_SECS,
        nanos < NANOS_PER_SEC,
        -DAY_SECS < offset_secs < DAY_SECS,
    ensures
        text@ == instant_text(secs as u64, nanos, offset_secs),
{
    let utc = chrono::DateTime::from_timestamp(secs, nanos);
    let offset = chrono::FixedOffset::east_opt(offset_secs);
    match (utc, offset) {
        (Some(utc), Some(offset)) => format!("{}", utc.with_timezone(&offset)),
        _ => String::new(),
    }
}

impl Timestamp {
    /// The instant that a clock reading of `secs` and `nanos` stands for:
    /// the reading itself where a `Timestamp` can hold it, else the end of
    /// the range.
    pub open spec fn clamped(secs: u64, nanos: u32) -> (u64, u32) {
        if secs <= MAX_SECS && nanos < NANOS_PER_SEC {
            (secs, nanos)
        } else {
            (MAX_SECS, 0)
        }
    }

    /// Builds the instant for a clock reading, clamped into the range.
    pub fn from_reading(secs: u64, nanos: u32) -> (stamp: Timestamp)
        ensures
            (stamp.spec_secs(), stamp.spec_nanos()) == Timestamp::clamped(secs, nanos),
    {
        if secs <= MAX_SECS && nanos < NANOS_PER_SEC {
            Timestamp { secs, nanos }
        } else {
            Timestamp { secs: MAX_SECS, nanos: 0 }
        }
    }

    /// The current instant by the system clock. A clock set before the epoch
    /// reads as the epoch, one set past the range as the end of the range,
    /// so the instant lies in the range whatever the clock shows.
    pub fn now() -> (stamp: Timestamp)
        ensures
            stamp.spec_secs() <= MAX_SECS,
            stamp.spec_nanos() < NANOS_PER_SEC,
    {
        let reading = SystemTime::now();
        match since_epoch(&reading) {
            Some(span) => Timestamp::from_reading(span.as_secs(), span.subsec_nanos()),
            None => Timestamp::epoch(),
        }
    }

    /// This instant as text, in the local time of a place whose clocks are
    /// `offset` ahead of UTC: the date, the time and the offset.
    pub fn to_local_text(self, offset: UtcOffset) -> (text: String)
        ensures
            text@ == instant_text(self.spec_secs(), self.spec_nanos(), offset.spec_secs()),
    {
        proof {
            use_type_invariant(self);
            use_type_invariant(offset);
        }
        text_at_offset(self.secs as i64, self.nanos, offset.secs)
    }
}

} // verus!
