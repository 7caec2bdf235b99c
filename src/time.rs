use chrono::Datelike;
use vstd::prelude::*;

verus! {

/// An instant in UTC, as whole seconds since the Unix epoch and the
/// nanoseconds past that second (above 999,999,999 only inside a leap second).
#[derive(Clone, Copy, Debug, PartialEq, Eq, Structural)]
pub struct Timestamp {
    pub secs: i64,
    pub nanos: u32,
}

/// `a` is at or before `b`.
pub open spec fn ts_le(a: Timestamp, b: Timestamp) -> bool {
    a.secs < b.secs || (a.secs == b.secs && a.nanos <= b.nanos)
}

/// `a` is strictly before `b`.
pub open spec fn ts_lt(a: Timestamp, b: Timestamp) -> bool {
    a.secs < b.secs || (a.secs == b.secs && a.nanos < b.nanos)
}

impl Timestamp {
    /// Whether `self` lies strictly before `other`.
    pub fn is_before(&self, other: &Timestamp) -> (r: bool)
        ensures
            r == ts_lt(*self, *other),
    {
        self.secs < other.secs || (self.secs == other.secs && self.nanos < other.nanos)
    }
}

/// A calendar day in UTC.
#[derive(Clone, Copy, Debug, PartialEq, Eq, Structural)]
pub struct CivilDate {
    pub year: u32,
    pub month: u32,
    pub day: u32,
}

impl CivilDate {
    pub open spec fn wf(self) -> bool {
        1 <= self.month <= 12 && 1 <= self.day <= 31
    }
}

/// Seconds after the Unix epoch up to the end of year 9999, a range in which
/// every instant has a calendar day and an RFC 3339 text.
pub open spec fn in_calendar_range(secs: int) -> bool {
    0 <= secs <= 253_402_300_799
}

/// The proleptic Gregorian (year, month, day) in UTC of the second `secs`
/// after the Unix epoch.
pub uninterp spec fn civil_date_of(secs: int) -> (int, int, int);

/// Relies on `chrono::Utc::now`: the current time, split into seconds and
/// sub-second nanoseconds by `DateTime::timestamp` and
/// `DateTime::timestamp_subsec_nanos`.
#[verifier::external_body]
pub(crate) fn current_time() -> (r: Timestamp) {
    let now = chrono::Utc::now();
    Timestamp { secs: now.timestamp(), nanos: now.timestamp_subsec_nanos() }
}

/// Relies on `chrono::DateTime::from_timestamp` (whole seconds) and on the
/// `Datelike` accessors of its `date_naive`: the UTC calendar day of `secs`,
/// or `None` where chrono's date range ends (far outside years 1970 to 9999).
#[verifier::external_body]
fn utc_date_parts(secs: i64) -> (r: Option<(i32, u32, u32)>)
    ensures
        r matches Some((y, m, d)) ==> (y as int, m as int, d as int) == civil_date_of(secs as int)
            && 1 <= m <= 12 && 1 <= d <= 31,
        in_calendar_range(secs as int) ==> r is Some && 1970 <= r->Some_0.0 <= 9999,
{
    let date = chrono::DateTime::from_timestamp(secs, 0)?.date_naive();
    Some((date.year(), date.month(), date.day()))
}

/// RFC 3339 text of the instant `secs` seconds and `nanos` nanoseconds after the
/// Unix epoch, in UTC.
pub uninterp spec fn rfc3339_of(secs: int, nanos: int) -> Seq<char>;

/// Relies on `chrono::DateTime::from_timestamp` and `DateTime::to_rfc3339`:
/// the RFC 3339 text of the instant, or `None` where chrono's date range ends
/// or the nanoseconds are not valid for that second.
#[verifier::external_body]
pub(crate) fn rfc3339_text(ts: Timestamp) -> (r: Option<String>)
    ensures
        r matches Some(t) ==> t@ == rfc3339_of(ts.secs as int, ts.nanos as int),
        in_calendar_range(ts.secs as int) && ts.nanos < 1_000_000_000 ==> r is Some,
{
    let dt = chrono::DateTime::from_timestamp(ts.secs, ts.nanos)?;
    Some(dt.to_rfc3339())
}

/// The current time.
pub fn now() -> (r: Timestamp) {
    current_time()
}

/// A timestamp as RFC 3339 text; always there for instants between 1970 and
/// the end of 9999 with valid nanoseconds.
pub fn format_rfc3339(ts: Timestamp) -> (r: Option<String>)
    ensures
        r matches Some(t) ==> t@ == rfc3339_of(ts.secs as int, ts.nanos as int),
        in_calendar_range(ts.secs as int) && ts.nanos < 1_000_000_000 ==> r is Some,
{
    rfc3339_text(ts)
}

/// The UTC calendar day of a timestamp; `None` for instants before year 0 or
/// beyond what the calendar can represent, and never for one between 1970 and
/// the end of 9999.
pub fn utc_date(ts: Timestamp) -> (r: Option<CivilDate>)
    ensures
        r matches Some(d) ==> d.wf() && (d.year as int, d.month as int, d.day as int) == civil_date_of(ts.secs as int),
        in_calendar_range(ts.secs as int) ==> r is Some,
{
    match utc_date_parts(ts.secs) {
        Some((y, m, d)) => {
            if y < 0 {
                None
            } else {
                Some(CivilDate { year: y as u32, month: m, day: d })
            }
        }
        None => None,
    }
}

} // verus!
