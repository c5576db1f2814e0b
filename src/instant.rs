use vstd::prelude::*;

use crate::error::QueryError;
use time::format_description::well_known::Rfc3339;
use time::{Date, Month, PrimitiveDateTime, Time, UtcOffset};

verus! {

/// Whether `y` is a leap year of the proleptic Gregorian calendar.
pub open spec fn is_leap_year(y: int) -> bool {
    let a = if y < 0 { -y } else { y };
    a % 4 == 0 && (a % 100 != 0 || a % 400 == 0)
}

/// The number of days of month `m` (1 to 12) of year `y`.
pub open spec fn days_in_month(y: int, m: int) -> int {
    if m == 2 {
        if is_leap_year(y) { 29 } else { 28 }
    } else if m == 4 || m == 6 || m == 9 || m == 11 {
        30
    } else {
        31
    }
}

/// The RFC 3339 text that the `time` crate writes for a valid instant with
/// an RFC 3339 form, given by its calendar fields and its UTC offset.
pub uninterp spec fn rfc3339_of(
    year: i32,
    month: u8,
    day: u8,
    hour: u8,
    minute: u8,
    second: u8,
    nanosecond: u32,
    offset_hours: i8,
    offset_minutes: i8,
) -> Seq<char>;

/// A point in time: a calendar date and a wall-clock time at a UTC offset.
///
/// The offset is `offset_hours` hours and `offset_minutes` minutes, both of
/// the same sign.
#[derive(Clone, Copy, Debug, PartialEq, Eq, Structural)]
pub struct DateTime {
    pub year: i32,
    pub month: u8,
    pub day: u8,
    pub hour: u8,
    pub minute: u8,
    pub second: u8,
    pub nanosecond: u32,
    pub offset_hours: i8,
    pub offset_minutes: i8,
}

impl DateTime {
    /// Every field lies in its range, the day exists in its month, and the
    /// offset is within the 25 h 59 min that an offset may span.
    pub open spec fn wf(&self) -> bool {
        &&& -9999 <= self.year <= 9999
        &&& 1 <= self.month <= 12
        &&& 1 <= self.day <= days_in_month(self.year as int, self.month as int)
        &&& self.hour < 24
        &&& self.minute < 60
        &&& self.second < 60
        &&& self.nanosecond < 1_000_000_000
        &&& -25 <= self.offset_hours <= 25
        &&& -59 <= self.offset_minutes <= 59
        &&& self.offset_hours > 0 ==> self.offset_minutes >= 0
        &&& self.offset_hours < 0 ==> self.offset_minutes <= 0
    }

    /// RFC 3339 writes four-digit years from 0 to 9999 and offsets below a day.
    pub open spec fn has_rfc3339_form(&self) -> bool {
        0 <= self.year <= 9999 && -23 <= self.offset_hours <= 23
    }

    /// The RFC 3339 text of this instant.
    pub open spec fn rfc3339(&self) -> Seq<char> {
        rfc3339_of(
            self.year,
            self.month,
            self.day,
            self.hour,
            self.minute,
            self.second,
            self.nanosecond,
            self.offset_hours,
            self.offset_minutes,
        )
    }
}

/// Relies on `time::OffsetDateTime::now_utc`, which gives the current
/// instant in UTC, and on its getters: a value of that type always holds a
/// valid date and time within years -9999 to 9999.
#[verifier::external_body]
fn now_utc() -> (r: DateTime)
    ensures
        r.wf(),
        r.offset_hours == 0 && r.offset_minutes == 0,
{
    let t = time::OffsetDateTime::now_utc();
    let (offset_hours, offset_minutes, _) = t.offset().as_hms();
    DateTime {
        year: t.year(),
        month: t.month() as u8,
        day: t.day(),
        hour: t.hour(),
        minute: t.minute(),
        second: t.second(),
        nanosecond: t.nanosecond(),
        offset_hours,
        offset_minutes,
    }
}

/// Relies on the `time` constructors (`Date::from_calendar_date`,
/// `Time::from_hms_nano`, `UtcOffset::from_hms`), which accept every valid
/// field, and on `OffsetDateTime::format` with `Rfc3339`, which fails only
/// for a year outside 0..=9999, an offset of a day or more, or an offset with
/// seconds.
#[verifier::external_body]
fn format_rfc3339(t: &DateTime) -> (r: Option<String>)
    requires
        t.wf(),
    ensures
        t.has_rfc3339_form() <==> r is Some,
        r matches Some(s) ==> s@ == rfc3339_of(
            t.year,
            t.month,
            t.day,
            t.hour,
            t.minute,
            t.second,
            t.nanosecond,
            t.offset_hours,
            t.offset_minutes,
        ),
{
    let date = Date::from_calendar_date(t.year, Month::try_from(t.month).ok()?, t.day).ok()?;
    let clock = Time::from_hms_nano(t.hour, t.minute, t.second, t.nanosecond).ok()?;
    let offset = UtcOffset::from_hms(t.offset_hours, t.offset_minutes, 0).ok()?;
    PrimitiveDateTime::new(date, clock).assume_offset(offset).format(&Rfc3339).ok()
}

/// Whether `y` is a leap year.
fn leap_year(y: i32) -> (b: bool)
    requires
        -9999 <= y <= 9999,
    ensures
        b == is_leap_year(y as int),
{
    let a: i32 = if y < 0 { -y } else { y };
    a % 4 == 0 && (a % 100 != 0 || a % 400 == 0)
}

/// The number of days of a month.
fn month_days(y: i32, m: u8) -> (d: u8)
    requires
        -9999 <= y <= 9999,
    ensures
        d as int == days_in_month(y as int, m as int),
{
    if m == 2 {
        if leap_year(y) { 29 } else { 28 }
    } else if m == 4 || m == 6 || m == 9 || m == 11 {
        30
    } else {
        31
    }
}

/// The instant a query runs at when the caller names none: now, in UTC.
pub fn default_datetime() -> (r: DateTime)
    ensures
        r.wf(),
        r.offset_hours == 0 && r.offset_minutes == 0,
{
    now_utc()
}

impl DateTime {
    /// The current instant, in UTC.
    pub fn new() -> (r: DateTime)
        ensures
            r.wf(),
            r.offset_hours == 0 && r.offset_minutes == 0,
    {
        default_datetime()
    }

    /// Whether the fields make a valid instant.
    pub fn is_valid(&self) -> (b: bool)
        ensures
            b == self.wf(),
    {
        -9999 <= self.year && self.year <= 9999 && 1 <= self.month && self.month <= 12
            && 1 <= self.day && self.day <= month_days(self.year, self.month) && self.hour < 24
            && self.minute < 60 && self.second < 60 && self.nanosecond < 1_000_000_000
            && -25 <= self.offset_hours && self.offset_hours <= 25 && -59 <= self.offset_minutes
            && self.offset_minutes <= 59 && (self.offset_hours <= 0 || self.offset_minutes >= 0)
            && (self.offset_hours >= 0 || self.offset_minutes <= 0)
    }

    /// The instant as RFC 3339 text, the form the engine reads timestamps in.
    /// An invalid instant, or one with no RFC 3339 form, is an
    /// `EncodingFailure`.
    pub fn to_string(&self) -> (r: Result<String, QueryError>)
        ensures
            r is Ok <==> self.wf() && self.has_rfc3339_form(),
            r matches Ok(s) ==> s@ == self.rfc3339(),
            r matches Err(e) ==> e == QueryError::EncodingFailure,
    {
        if !self.is_valid() {
            return Err(QueryError::EncodingFailure);
        }
        match format_rfc3339(self) {
            Some(s) => Ok(s),
            None => Err(QueryError::EncodingFailure),
        }
    }
}

} // verus!
