//! Points in time as plain values: seconds since the unix epoch and the
//! nanoseconds past that second.

use vstd::prelude::*;
use std::time::{Duration, SystemTime, SystemTimeError};

verus! {

/// the seconds from the unix epoch of the earliest instant that a chrono
/// `DateTime<Utc>` can stand for (-262143-01-01T00:00:00Z)
pub const MIN_TIMESTAMP_SECS: i64 = -8_334_601_315_200;

/// the seconds from the unix epoch of the latest instant that a chrono
/// `DateTime<Utc>` can stand for (+262142-12-31T23:59:59Z)
pub const MAX_TIMESTAMP_SECS: i64 = 8_210_266_876_799;

/// a point in time in UTC: whole seconds since 1970-01-01T00:00:00Z and the
/// nanoseconds past that second (above 999,999,999 only within a leap second)
#[derive(Debug, Clone, Copy, PartialEq, Eq, Structural)]
pub struct Timestamp {
    pub secs: i64,
    pub nanos: u32,
}

impl Timestamp {
    /// whether the point lies in the range that chrono can represent and
    /// carries a valid nanosecond count: a second and more of nanoseconds
    /// only stands for a leap second, which chrono places at the 59th second
    /// of a minute
    pub open spec fn wf(self) -> bool {
        &&& MIN_TIMESTAMP_SECS <= self.secs <= MAX_TIMESTAMP_SECS
        &&& self.nanos < 2_000_000_000
        &&& (self.nanos >= 1_000_000_000 ==> self.secs % 60 == 59)
    }

    /// time order: earlier seconds first, then fewer nanoseconds
    pub open spec fn spec_before(self, other: Self) -> bool {
        self.secs < other.secs || (self.secs == other.secs && self.nanos < other.nanos)
    }

    /// whether this point is strictly earlier than `other`
    pub fn before(&self, other: &Self) -> (rtn: bool)
        ensures
            rtn == self.spec_before(*other),
    {
        self.secs < other.secs || (self.secs == other.secs && self.nanos < other.nanos)
    }

    /// the point `secs` seconds later (earlier for a negative count)
    pub fn add_secs(&self, secs: i64) -> (rtn: Self)
        requires
            self.wf(),
            -3_600_000 <= secs <= 3_600_000,
        ensures
            rtn.secs == self.secs + secs,
            rtn.nanos == self.nanos,
    {
        Timestamp { secs: self.secs + secs, nanos: self.nanos }
    }
}

/// a reading of the system clock, carried through the library unread
#[verifier::external_type_specification]
#[verifier::external_body]
pub struct ExSystemTime(std::time::SystemTime);

/// the error of a clock reading before the unix epoch, carried unread
#[verifier::external_type_specification]
#[verifier::external_body]
pub struct ExSystemTimeError(std::time::SystemTimeError);

/// Calls `SystemTime::now`. The reading depends on the clock: nothing is
/// claimed of it.
#[verifier::external_body]
fn system_now() -> (rtn: SystemTime) {
    SystemTime::now()
}

/// Calls `SystemTime::duration_since` with the unix epoch: the time since
/// the epoch, or an error when the reading lies before it. A reading is
/// opaque here, so which of the two comes back is not stated.
#[verifier::external_body]
fn since_unix_epoch(now: &SystemTime) -> (rtn: Result<Duration, SystemTimeError>) {
    now.duration_since(std::time::UNIX_EPOCH)
}

/// Calls `SystemTimeError::duration`: how far before the epoch the reading
/// lies.
#[verifier::external_body]
fn before_unix_epoch(err: &SystemTimeError) -> (rtn: Duration) {
    err.duration()
}

/// Calls `Duration::as_secs`: the whole seconds of the duration. A duration
/// is opaque here, so the value is not stated; the durations this library
/// reads all come from a clock reading.
#[verifier::external_body]
fn duration_secs(d: &Duration) -> (rtn: u64) {
    d.as_secs()
}

/// Calls `Duration::subsec_nanos`. As std documents, the nanoseconds past
/// the whole seconds are always fewer than one billion.
#[verifier::external_body]
fn duration_subsec_nanos(d: &Duration) -> (rtn: u32)
    ensures
        rtn < 1_000_000_000,
{
    d.subsec_nanos()
}

/// the point that lies `secs` seconds and `nanos` nanoseconds after the
/// unix epoch, or before it when `before`; `None` when it lies outside the
/// range chrono can represent
pub open spec fn spec_from_epoch_offset(before: bool, secs: u64, nanos: u32) -> Option<Timestamp> {
    let t = if !before {
        (secs as int, nanos as int)
    } else if nanos == 0 {
        (-secs, 0int)
    } else {
        (-secs - 1, 1_000_000_000 - nanos)
    };
    if MIN_TIMESTAMP_SECS <= t.0 <= MAX_TIMESTAMP_SECS {
        Some(Timestamp { secs: t.0 as i64, nanos: t.1 as u32 })
    } else {
        None
    }
}

/// the point at an offset from the unix epoch, as `spec_from_epoch_offset`
/// says
pub fn from_epoch_offset(before: bool, secs: u64, nanos: u32) -> (rtn: Option<Timestamp>)
    requires
        nanos < 1_000_000_000,
    ensures
        rtn == spec_from_epoch_offset(before, secs, nanos),
        rtn matches Some(t) ==> t.wf(),
{
    if !before {
        if secs > MAX_TIMESTAMP_SECS as u64 {
            None
        } else {
            Some(Timestamp { secs: secs as i64, nanos })
        }
    } else if secs > 8_334_601_315_200u64 {
        None
    } else if nanos == 0 {
        Some(Timestamp { secs: -(secs as i64), nanos: 0 })
    } else if secs == 8_334_601_315_200u64 {
        None
    } else {
        Some(Timestamp { secs: -(secs as i64) - 1, nanos: 1_000_000_000 - nanos })
    }
}

/// the current time read from the system clock, before or after the unix
/// epoch; `None` when it lies outside the range chrono can represent
pub(crate) fn utc_now() -> (rtn: Option<Timestamp>)
    ensures
        rtn matches Some(t) ==> t.wf(),
{
    let now = system_now();
    match since_unix_epoch(&now) {
        Ok(after) => from_epoch_offset(false, duration_secs(&after), duration_subsec_nanos(&after)),
        Err(err) => {
            let before = before_unix_epoch(&err);
            from_epoch_offset(true, duration_secs(&before), duration_subsec_nanos(&before))
        },
    }
}

/// what chrono writes for a point in time under the pattern
/// `%a, %d %b %Y %H:%M:%S GMT` (the date form of HTTP headers), given the
/// point's seconds and nanoseconds
pub uninterp spec fn spec_http_date(secs: i64, nanos: u32) -> Seq<char>;

/// Calls `chrono::DateTime::<Utc>::from_timestamp` and formats the result
/// with `%a, %d %b %Y %H:%M:%S GMT`. The text is named `spec_http_date` of
/// the seconds and nanoseconds; its letters are not written out here. A
/// well-formed point always has a `DateTime`, so the other arm is never
/// taken.
#[verifier::external_body]
pub(crate) fn http_date(at: &Timestamp) -> (rtn: String)
    requires
        at.wf(),
    ensures
        rtn@ == spec_http_date(at.secs, at.nanos),
{
    match chrono::DateTime::from_timestamp(at.secs, at.nanos) {
        Some(date) => date.format("%a, %d %b %Y %H:%M:%S GMT").to_string(),
        None => String::new(),
    }
}

} // verus!
