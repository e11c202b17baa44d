//! The calls into `chrono` and `chrono-tz`.
//!
//! Nothing in this file is proved: each function hands plain values to the
//! outside crate and hands plain values back, and its contract states what
//! the crate's documentation and source say of the call. The rest of the
//! library is verified against these contracts.

use crate::calendar::CivilDateTime;
use crate::naive::{LocalOffset, NaiveDate, NaiveDateTime, NaiveTime, Weekday};
use chrono::{Datelike, Offset, TimeZone, Timelike};
use chrono_tz::Tz;
use vstd::prelude::*;

verus! {

/// `chrono_tz::Tz`: the identifier of an IANA time zone. Its values are
/// carried through to the look-ups below and never inspected.
#[verifier::external_type_specification]
#[verifier::external_body]
pub struct ExTz(Tz);

/// What `chrono::NaiveDateTime::parse_from_str` makes of `text` under
/// `pattern`: the date and time read, or the pretty-printed `Debug` text of
/// the parse error.
pub uninterp spec fn parsed_datetime(text: Seq<char>, pattern: Seq<char>) -> Result<
    NaiveDateTime,
    Seq<char>,
>;

/// The offset, in seconds east of Greenwich, that `zone` observes at the
/// instant whose UTC reading is `utc`, as `chrono-tz` looks it up.
pub uninterp spec fn zone_offset_at_utc(zone: Tz, utc: CivilDateTime) -> int;

/// The offsets that `zone` can have when a clock there reads `local`, as
/// `chrono-tz` looks them up.
pub uninterp spec fn zone_offset_at_local(zone: Tz, local: CivilDateTime) -> LocalOffset;

/// Calls `chrono::NaiveDateTime::parse_from_str`. The result is a function of
/// the two texts alone; a date and time that comes back lies within chrono's
/// range of years and has every field in range. On failure the message is the
/// error formatted with `{:#?}`.
#[verifier::external_body]
pub(crate) fn parse_from_str(text: &str, pattern: &str) -> (parsed: Result<NaiveDateTime, String>)
    ensures
        parsed is Ok <==> parsed_datetime(text@, pattern@) is Ok,
        parsed matches Ok(datetime) ==> datetime.wf() && parsed_datetime(text@, pattern@)->Ok_0
            == datetime,
        parsed matches Err(message) ==> parsed_datetime(text@, pattern@)->Err_0 == message@,
{
    let r = match chrono::NaiveDateTime::parse_from_str(text, pattern) {
        Ok(r) => r,
        Err(e) => return Err(format!("{e:#?}")),
    };
    let date = NaiveDate { year: r.year(), month: r.month(), day: r.day() };
    let (hour, minute, second, nanosecond) = (r.hour(), r.minute(), r.second(), r.nanosecond());
    Ok(NaiveDateTime { date, time: NaiveTime { hour, minute, second, nanosecond } })
}

/// Calls `offset_from_utc_datetime` of `chrono_tz::Tz`, then `fix` and
/// `local_minus_utc`. The zone's tables give exactly one offset for every
/// instant, and a fixed offset is always less than a day either way.
#[verifier::external_body]
pub(crate) fn offset_from_utc_datetime(zone: &Tz, utc: &NaiveDateTime) -> (seconds: i32)
    requires
        utc.wf(),
    ensures
        seconds == zone_offset_at_utc(*zone, utc@),
        -86400 < seconds < 86400,
{
    let date = chrono::NaiveDate::from_ymd_opt(utc.date.year, utc.date.month, utc.date.day).unwrap();
    let time = date.and_hms_opt(utc.time.hour, utc.time.minute, utc.time.second).unwrap();
    let naive = time.with_nanosecond(utc.time.nanosecond).unwrap();
    zone.offset_from_utc_datetime(&naive).fix().local_minus_utc()
}

/// Calls `offset_from_local_datetime` of `chrono_tz::Tz` and reads each
/// offset found with `fix` and `local_minus_utc`. Where two offsets apply,
/// the one in force first comes first.
#[verifier::external_body]
pub(crate) fn offset_from_local_datetime(zone: &Tz, local: &NaiveDateTime) -> (found: LocalOffset)
    requires
        local.wf(),
    ensures
        found == zone_offset_at_local(*zone, local@),
        found.wf(),
{
    let date = chrono::NaiveDate::from_ymd_opt(local.date.year, local.date.month, local.date.day).unwrap();
    let time = date.and_hms_opt(local.time.hour, local.time.minute, local.time.second).unwrap();
    let naive = time.with_nanosecond(local.time.nanosecond).unwrap();
    match zone.offset_from_local_datetime(&naive) {
        chrono::MappedLocalTime::None => LocalOffset::Gap,
        chrono::MappedLocalTime::Single(o) => LocalOffset::Single(o.fix().local_minus_utc()),
        chrono::MappedLocalTime::Ambiguous(a, b) => {
            LocalOffset::Ambiguous(a.fix().local_minus_utc(), b.fix().local_minus_utc())
        },
    }
}

/// Calls `chrono::NaiveDateTime::checked_add_offset` with the fixed offset of
/// `seconds` east. The seconds since midnight move on by `seconds`, the date
/// follows by at most one day and the nanoseconds stay; there is no result
/// where the date would leave chrono's range of years.
#[verifier::external_body]
pub(crate) fn checked_add_offset(from: &NaiveDateTime, seconds: i32) -> (moved: Option<
    NaiveDateTime,
>)
    requires
        from.wf(),
        -86400 < seconds < 86400,
    ensures
        moved is Some <==> from@.plus_seconds(seconds as int).date.in_range(),
        moved matches Some(m) ==> m@ == from@.plus_seconds(seconds as int),
{
    let date = chrono::NaiveDate::from_ymd_opt(from.date.year, from.date.month, from.date.day).unwrap();
    let time = date.and_hms_opt(from.time.hour, from.time.minute, from.time.second).unwrap();
    let naive = time.with_nanosecond(from.time.nanosecond).unwrap();
    let r = naive.checked_add_offset(chrono::FixedOffset::east_opt(seconds).unwrap())?;
    let date = NaiveDate { year: r.year(), month: r.month(), day: r.day() };
    let (hour, minute, second, nanosecond) = (r.hour(), r.minute(), r.second(), r.nanosecond());
    Some(NaiveDateTime { date, time: NaiveTime { hour, minute, second, nanosecond } })
}

/// Calls `chrono::NaiveDateTime::checked_sub_offset` with the fixed offset of
/// `seconds` east. The seconds since midnight move back by `seconds`, the
/// date follows by at most one day and the nanoseconds stay; there is no
/// result where the date would leave chrono's range of years.
#[verifier::external_body]
pub(crate) fn checked_sub_offset(from: &NaiveDateTime, seconds: i32) -> (moved: Option<
    NaiveDateTime,
>)
    requires
        from.wf(),
        -86400 < seconds < 86400,
    ensures
        moved is Some <==> from@.plus_seconds(-(seconds as int)).date.in_range(),
        moved matches Some(m) ==> m@ == from@.plus_seconds(-(seconds as int)),
{
    let date = chrono::NaiveDate::from_ymd_opt(from.date.year, from.date.month, from.date.day).unwrap();
    let time = date.and_hms_opt(from.time.hour, from.time.minute, from.time.second).unwrap();
    let naive = time.with_nanosecond(from.time.nanosecond).unwrap();
    let r = naive.checked_sub_offset(chrono::FixedOffset::east_opt(seconds).unwrap())?;
    let date = NaiveDate { year: r.year(), month: r.month(), day: r.day() };
    let (hour, minute, second, nanosecond) = (r.hour(), r.minute(), r.second(), r.nanosecond());
    Some(NaiveDateTime { date, time: NaiveTime { hour, minute, second, nanosecond } })
}

/// Calls `chrono::NaiveDate::checked_add_months`. The date moves on by
/// `months` months and keeps its day, or takes the last day of the target
/// month where that month is shorter. There is no result where the date
/// would leave chrono's range of years.
#[verifier::external_body]
pub(crate) fn checked_add_months(date: &NaiveDate, months: u32) -> (moved: Option<NaiveDate>)
    requires
        date.wf(),
    ensures
        moved is Some <==> date@.plus_months(months as int).in_range(),
        moved matches Some(m) ==> m@ == date@.plus_months(months as int),
{
    let naive = chrono::NaiveDate::from_ymd_opt(date.year, date.month, date.day).unwrap();
    let r = naive.checked_add_months(chrono::Months::new(months))?;
    Some(NaiveDate { year: r.year(), month: r.month(), day: r.day() })
}

/// Calls `chrono::NaiveDate::checked_add_days`. The date moves on by `days`
/// days; there is no result where it would leave chrono's range of years.
#[verifier::external_body]
pub(crate) fn checked_add_days(date: &NaiveDate, days: u64) -> (moved: Option<NaiveDate>)
    requires
        date.wf(),
    ensures
        moved is Some <==> date@.plus_days(days as int).in_range(),
        moved matches Some(m) ==> m@ == date@.plus_days(days as int),
{
    let naive = chrono::NaiveDate::from_ymd_opt(date.year, date.month, date.day).unwrap();
    let r = naive.checked_add_days(chrono::Days::new(days))?;
    Some(NaiveDate { year: r.year(), month: r.month(), day: r.day() })
}

/// Calls `chrono::NaiveDate::checked_sub_days`. The date moves back by `days`
/// days; there is no result where it would leave chrono's range of years.
#[verifier::external_body]
pub(crate) fn checked_sub_days(date: &NaiveDate, days: u64) -> (moved: Option<NaiveDate>)
    requires
        date.wf(),
    ensures
        moved is Some <==> date@.plus_days(-(days as int)).in_range(),
        moved matches Some(m) ==> m@ == date@.plus_days(-(days as int)),
{
    let naive = chrono::NaiveDate::from_ymd_opt(date.year, date.month, date.day).unwrap();
    let r = naive.checked_sub_days(chrono::Days::new(days))?;
    Some(NaiveDate { year: r.year(), month: r.month(), day: r.day() })
}

/// Calls `weekday` of `chrono::NaiveDate`: the day of the week of the date,
/// in the calendar in which 1 January of year 1 is a Monday.
#[verifier::external_body]
pub(crate) fn weekday(date: &NaiveDate) -> (day: Weekday)
    requires
        date.wf(),
    ensures
        day.index() == date@.weekday_index(),
{
    let naive = chrono::NaiveDate::from_ymd_opt(date.year, date.month, date.day).unwrap();
    match naive.weekday() {
        chrono::Weekday::Mon => Weekday::Mon,
        chrono::Weekday::Tue => Weekday::Tue,
        chrono::Weekday::Wed => Weekday::Wed,
        chrono::Weekday::Thu => Weekday::Thu,
        chrono::Weekday::Fri => Weekday::Fri,
        chrono::Weekday::Sat => Weekday::Sat,
        chrono::Weekday::Sun => Weekday::Sun,
    }
}

} // verus!
