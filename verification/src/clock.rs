//! Moments in local time, and the text in which a log keeps one: RFC 3339
//! with whole seconds and a numeric offset, such as
//! `2025-01-12T21:04:09+01:00`.
//!
//! The clock, the time zone and the RFC 3339 grammar are chrono's. A moment is
//! held here as plain numbers, so that what is written and shown can be
//! stated and proved.
use crate::text::{pair_string, pair_text, quad_string, quad_text};
use vstd::prelude::*;
use vstd::string::StringExecFns;

verus! {

/// A moment of local time: a calendar date, a time of day in whole seconds,
/// and the offset of local time from UTC in seconds, east being positive.
#[derive(Clone, Copy, Debug, PartialEq, Eq, Structural)]
pub struct Timestamp {
    pub year: i32,
    pub month: u32,
    pub day: u32,
    pub hour: u32,
    pub minute: u32,
    pub second: u32,
    pub offset: i32,
}

/// Whether `year` is a leap year of the Gregorian calendar.
pub open spec fn is_leap_year(year: int) -> bool {
    year % 4 == 0 && (year % 100 != 0 || year % 400 == 0)
}

/// The number of days of a month; 0 where `month` is none.
pub open spec fn days_in_month(year: int, month: int) -> int {
    if month == 2 {
        if is_leap_year(year) {
            29
        } else {
            28
        }
    } else if month == 4 || month == 6 || month == 9 || month == 11 {
        30
    } else if 1 <= month <= 12 {
        31
    } else {
        0
    }
}

/// Whether the Gregorian calendar has this day.
pub open spec fn valid_date(year: int, month: int, day: int) -> bool {
    1 <= month <= 12 && 1 <= day <= days_in_month(year, month)
}

/// Whether this is a time of day, leap seconds left aside.
pub open spec fn valid_time(hour: int, minute: int, second: int) -> bool {
    0 <= hour < 24 && 0 <= minute < 60 && 0 <= second < 60
}

/// Whether an offset is less than a day, as chrono asks of every offset.
pub open spec fn valid_offset(offset: int) -> bool {
    -86_400 < offset < 86_400
}

/// Whether an offset, rounded to the minute, is still less than a day, so
/// that it is written with an hour below 24: only such an offset can be read
/// back.
pub open spec fn writable_offset(offset: int) -> bool {
    -86_370 < offset < 86_370
}

impl Timestamp {
    /// Whether the date exists, the time of day is one and the offset is less
    /// than a day. chrono's moments all are.
    pub open spec fn is_real(self) -> bool {
        &&& valid_date(self.year as int, self.month as int, self.day as int)
        &&& valid_time(self.hour as int, self.minute as int, self.second as int)
        &&& valid_offset(self.offset as int)
    }

    /// A real moment whose year has four digits and whose offset is
    /// writable: one that can be written in the fixed width in which logs keep
    /// their dates, and read back.
    pub open spec fn is_civil(self) -> bool {
        self.is_real() && 0 <= self.year <= 9999 && writable_offset(self.offset as int)
    }
}

/// A date as `YYYY-MM-DD`, zero padded.
#[verifier::opaque]
pub open spec fn date_text(year: int, month: int, day: int) -> Seq<char> {
    quad_text(year as nat) + seq!['-'] + pair_text(month as nat) + seq!['-'] + pair_text(
        day as nat,
    )
}

/// A time of day as `HH:MM:SS`, zero padded.
#[verifier::opaque]
pub open spec fn time_text(hour: int, minute: int, second: int) -> Seq<char> {
    pair_text(hour as nat) + seq![':'] + pair_text(minute as nat) + seq![':'] + pair_text(
        second as nat,
    )
}

/// The minutes that an offset of `offset` seconds is written with: its size,
/// rounded to the nearest minute, halves upwards.
pub open spec fn offset_minutes(offset: int) -> nat {
    if offset < 0 {
        ((-offset + 30) / 60) as nat
    } else {
        ((offset + 30) / 60) as nat
    }
}

/// An offset as a sign, hours and minutes: `+01:00`, `-08:00`, `+00:00`.
#[verifier::opaque]
pub open spec fn offset_text(offset: int) -> Seq<char> {
    let sign = if offset < 0 {
        '-'
    } else {
        '+'
    };
    seq![sign] + pair_text(offset_minutes(offset) / 60) + seq![':'] + pair_text(
        offset_minutes(offset) % 60,
    )
}

/// The text of a moment: date, `T`, time of day, offset.
pub open spec fn stamp_text(moment: Timestamp) -> Seq<char> {
    date_text(moment.year as int, moment.month as int, moment.day as int) + seq!['T'] + time_text(
        moment.hour as int,
        moment.minute as int,
        moment.second as int,
    ) + offset_text(moment.offset as int)
}

/// The calendar date (year, month, day) that chrono's RFC 3339 parser reads
/// from a text, as the text itself gives it, whatever its offset; `None`
/// where the parser refuses the text.
pub uninterp spec fn rfc3339_date(text: Seq<char>) -> Option<(int, int, int)>;

/// The current moment, from chrono's `Local::now`, with its fields read by
/// chrono's `Datelike` and `Timelike` and its offset by
/// `FixedOffset::local_minus_utc`; fractions of a second are left out.
///
/// Nothing is said of which moment it is. The contract holds what chrono
/// documents of every moment: the date exists, hour, minute and second are in
/// their ranges, and the offset is less than a day. chrono stops the program
/// where the system clock stands before 1970 or no time zone can be read.
#[verifier::external_body]
pub(crate) fn local_now() -> (now: Timestamp)
    ensures
        now.is_real(),
{
    let t = chrono::Local::now();
    Timestamp {
        year: chrono::Datelike::year(&t),
        month: chrono::Datelike::month(&t),
        day: chrono::Datelike::day(&t),
        hour: chrono::Timelike::hour(&t),
        minute: chrono::Timelike::minute(&t),
        second: chrono::Timelike::second(&t),
        offset: t.offset().local_minus_utc(),
    }
}

/// The offset of local time at the given local date and time of day, from
/// chrono's `TimeZone::with_ymd_and_hms` on `Local`: `None` where the date or
/// the time of day does not exist, and where the local clock skips that time
/// or shows it twice.
///
/// Which offset it is depends on the machine's time zone. The contract holds
/// what chrono shows of every answer: there is one only for a date and a time
/// of day that exist, and it is less than a day.
#[verifier::external_body]
pub(crate) fn local_offset_at(
    year: i32,
    month: u32,
    day: u32,
    hour: u32,
    minute: u32,
    second: u32,
) -> (offset: Option<i32>)
    ensures
        offset matches Some(seconds) ==> {
            &&& valid_date(year as int, month as int, day as int)
            &&& valid_time(hour as int, minute as int, second as int)
            &&& valid_offset(seconds as int)
        },
{
    let at = chrono::TimeZone::with_ymd_and_hms(&chrono::Local, year, month, day, hour, minute, second);
    at.single().map(|t| t.offset().local_minus_utc())
}

/// The RFC 3339 text of a moment, from chrono's `DateTime::to_rfc3339_opts`
/// with whole seconds and a numeric offset, on the moment built by
/// `FixedOffset::east_opt` and `TimeZone::with_ymd_and_hms`.
///
/// The contract claims that chrono builds every civil moment, writes it as
/// `stamp_text` says (four digits of year, two of each other field, the offset
/// rounded to minutes), and that chrono's own parser reads the result.
#[verifier::external_body]
pub(crate) fn write_rfc3339(moment: &Timestamp) -> (written: Option<String>)
    requires
        moment.is_civil(),
    ensures
        written is Some,
        written matches Some(t) ==> t@ == stamp_text(*moment) && rfc3339_date(t@) is Some,
{
    let zone = chrono::FixedOffset::east_opt(moment.offset)?;
    let at = chrono::TimeZone::with_ymd_and_hms(
        &zone,
        moment.year,
        moment.month,
        moment.day,
        moment.hour,
        moment.minute,
        moment.second,
    ).single()?;
    Some(at.to_rfc3339_opts(chrono::SecondsFormat::Secs, false))
}

/// The calendar date of an RFC 3339 text, from chrono's
/// `DateTime::parse_from_rfc3339`, read off the result by `Datelike`.
///
/// The result is `rfc3339_date` of the text. Of a text that chrono accepts
/// the contract claims what the parser's source shows: the text begins with
/// four digits of year, a hyphen, two digits of month, a hyphen and two digits
/// of day, and these are the date that comes back, which exists.
#[verifier::external_body]
pub(crate) fn read_rfc3339_date(text: &str) -> (date: Option<(i32, u32, u32)>)
    ensures
        date is Some <==> rfc3339_date(text@) is Some,
        date matches Some(d) ==> {
            &&& rfc3339_date(text@) == Some((d.0 as int, d.1 as int, d.2 as int))
            &&& 0 <= d.0 <= 9999
            &&& valid_date(d.0 as int, d.1 as int, d.2 as int)
            &&& text@.len() >= 10
            &&& text@.subrange(0, 10) == date_text(d.0 as int, d.1 as int, d.2 as int)
        },
{
    let at = chrono::DateTime::parse_from_rfc3339(text).ok()?;
    Some((chrono::Datelike::year(&at), chrono::Datelike::month(&at), chrono::Datelike::day(&at)))
}

/// Writes a date as `YYYY-MM-DD`.
pub fn date_string(year: u32, month: u32, day: u32) -> (s: String)
    ensures
        s@ == date_text(year as int, month as int, day as int),
{
    let mut s = quad_string(year);
    s.append("-");
    let m = pair_string(month);
    s.append(m.as_str());
    s.append("-");
    let d = pair_string(day);
    s.append(d.as_str());
    proof {
        reveal(date_text);
        reveal_strlit("-");
        assert("-"@ =~= seq!['-']);
    }
    s
}

/// Whether the Gregorian calendar has this day.
pub fn day_exists(year: i32, month: u32, day: u32) -> (ok: bool)
    ensures
        ok == valid_date(year as int, month as int, day as int),
{
    if month < 1 || month > 12 {
        return false;
    }
    let leap = year % 4 == 0 && (year % 100 != 0 || year % 400 == 0);
    let days: u32 = if month == 2 {
        if leap {
            29
        } else {
            28
        }
    } else if month == 4 || month == 6 || month == 9 || month == 11 {
        30
    } else {
        31
    };
    1 <= day && day <= days
}

impl Timestamp {
    /// Whether this moment is civil: whether `to_rfc3339` can write it.
    pub fn can_be_kept(&self) -> (ok: bool)
        ensures
            ok == self.is_civil(),
    {
        0 <= self.year && self.year <= 9999 && day_exists(self.year, self.month, self.day)
            && self.hour < 24 && self.minute < 60 && self.second < 60 && -86_370 < self.offset
            && self.offset < 86_370
    }

    /// The text that a log keeps of this moment: `stamp_text`, 25 characters
    /// whatever the moment, and one that reads back as RFC 3339.
    pub fn to_rfc3339(&self) -> (text: String)
        requires
            self.is_civil(),
        ensures
            text@ == stamp_text(*self),
            rfc3339_date(text@) is Some,
    {
        match write_rfc3339(self) {
            Some(text) => text,
            None => vstd::pervasive::unreached(),
        }
    }
}

/// The text of a moment begins with its calendar date, whatever its time of
/// day and its offset, and is 25 characters long.
pub proof fn lemma_stamp_text_shape(moment: Timestamp)
    ensures
        stamp_text(moment).len() == 25,
        stamp_text(moment).subrange(0, 10) == date_text(
            moment.year as int,
            moment.month as int,
            moment.day as int,
        ),
{
    reveal(date_text);
    reveal(time_text);
    reveal(offset_text);
    let date = date_text(moment.year as int, moment.month as int, moment.day as int);
    assert(date.len() == 10);
    assert(stamp_text(moment).subrange(0, 10) =~= date);
}

} // verus!
