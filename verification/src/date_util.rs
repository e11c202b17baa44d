//! Conversion of timestamp text between a time zone and UTC, the last day of
//! a month, and the Monday and Sunday of a week.

use crate::calendar::{
    days_in_month, is_leap_year, lemma_days_apart_years_apart, lemma_plus_days,
    lemma_plus_days_inverse, lemma_plus_seconds, CivilDate, CivilDateTime, MAX_YEAR, MIN_YEAR,
};
use crate::chrono_ops::{
    checked_add_days, checked_add_months, checked_add_offset, checked_sub_days,
    checked_sub_offset, offset_from_local_datetime, offset_from_utc_datetime, parse_from_str,
    parsed_datetime, weekday, zone_offset_at_local, zone_offset_at_utc,
};
use crate::error::InvalidArgumentError;
use crate::naive::{DateTime, NaiveDateTime, Weekday};
use chrono_tz::Tz;
use vstd::prelude::*;

verus! {

/// What the error says when a converted date and time falls outside the
/// supported years.
pub open spec fn out_of_range_message() -> Seq<char> {
    "date and time out of range"@
}

/// The offset from UTC, in seconds east, under which a clock reading `local`
/// in `zone` is understood. Where the zone has one offset for that reading it
/// is that one; where the clocks were set back and the reading occurred
/// twice, the offset in force the first time; where the clocks skipped the
/// reading, the offset that the zone has at the instant with that reading in
/// UTC.
pub open spec fn local_offset(zone: Tz, local: CivilDateTime) -> int {
    match zone_offset_at_local(zone, local).earliest_spec() {
        Some(offset) => offset as int,
        None => zone_offset_at_utc(zone, local),
    }
}

/// The UTC reading of the instant at which a clock in `zone` reads `local`.
pub open spec fn utc_of_local(zone: Tz, local: CivilDateTime) -> CivilDateTime {
    local.plus_seconds(-local_offset(zone, local))
}

/// What a clock in `zone` reads at the instant whose UTC reading is `utc`.
pub open spec fn local_of_utc(zone: Tz, utc: CivilDateTime) -> CivilDateTime {
    utc.plus_seconds(zone_offset_at_utc(zone, utc))
}

/// The outcome of a conversion: the date and time, or the message of the
/// error.
pub open spec fn converted(
    parsed: Result<NaiveDateTime, Seq<char>>,
    target: CivilDateTime,
) -> Result<CivilDateTime, Seq<char>> {
    match parsed {
        Err(message) => Err(message),
        Ok(_) => if target.date.in_range() {
            Ok(target)
        } else {
            Err(out_of_range_message())
        },
    }
}

/// The UTC date and time of the instant at which clocks `offset_seconds` east
/// of Greenwich read `local`, or an error where that falls outside the
/// supported years.
pub fn utc_from_local(local: &NaiveDateTime, offset_seconds: i32) -> (result: Result<
    DateTime,
    InvalidArgumentError,
>)
    requires
        local.wf(),
        -86400 < offset_seconds < 86400,
    ensures
        result is Ok <==> local@.plus_seconds(-(offset_seconds as int)).date.in_range(),
        result matches Ok(utc) ==> utc.wf() && utc.is_utc() && utc.local@ == local@.plus_seconds(
            -(offset_seconds as int),
        ),
        result matches Err(error) ==> error@ == out_of_range_message(),
{
    proof {
        lemma_plus_seconds(local@, -(offset_seconds as int));
    }
    match checked_sub_offset(local, offset_seconds) {
        Some(utc) => Ok(DateTime::from_utc(utc)),
        None => Err(InvalidArgumentError::new("date and time out of range")),
    }
}

/// What clocks `offset_seconds` east of Greenwich read at the instant whose
/// UTC reading is `utc`, or an error where that falls outside the supported
/// years.
pub fn local_from_utc(utc: &NaiveDateTime, offset_seconds: i32) -> (result: Result<
    NaiveDateTime,
    InvalidArgumentError,
>)
    requires
        utc.wf(),
        -86400 < offset_seconds < 86400,
    ensures
        result is Ok <==> utc@.plus_seconds(offset_seconds as int).date.in_range(),
        result matches Ok(local) ==> local.wf() && local@ == utc@.plus_seconds(
            offset_seconds as int,
        ),
        result matches Err(error) ==> error@ == out_of_range_message(),
{
    proof {
        lemma_plus_seconds(utc@, offset_seconds as int);
    }
    match checked_add_offset(utc, offset_seconds) {
        Some(local) => Ok(local),
        None => Err(InvalidArgumentError::new("date and time out of range")),
    }
}

/// The view of a conversion's result: the date and time, or the error's
/// message.
pub open spec fn utc_outcome(result: Result<DateTime, InvalidArgumentError>) -> Result<
    CivilDateTime,
    Seq<char>,
> {
    match result {
        Ok(utc) => Ok(utc.local@),
        Err(error) => Err(error@),
    }
}

/// The view of a conversion's result: the date and time, or the error's
/// message.
pub open spec fn local_outcome(result: Result<NaiveDateTime, InvalidArgumentError>) -> Result<
    CivilDateTime,
    Seq<char>,
> {
    match result {
        Ok(local) => Ok(local@),
        Err(error) => Err(error@),
    }
}

/// Reads `datetime` under `pattern` as wall-clock time in `timezone` and
/// gives the same instant in UTC.
///
/// The text fails to parse exactly when the result is an error with the
/// parser's diagnostic as its message. Otherwise the offset of the zone for
/// that wall-clock reading is taken away (see [`local_offset`]); the result
/// is an error only where that leaves the supported years.
pub fn local_datetime_to_utc(datetime: &str, pattern: &str, timezone: &Tz) -> (result: Result<
    DateTime,
    InvalidArgumentError,
>)
    ensures
        utc_outcome(result) == converted(
            parsed_datetime(datetime@, pattern@),
            utc_of_local(*timezone, parsed_datetime(datetime@, pattern@)->Ok_0@),
        ),
        result matches Ok(utc) ==> utc.wf() && utc.is_utc(),
{
    match parse_from_str(datetime, pattern) {
        Err(message) => Err(InvalidArgumentError::new(message.as_str())),
        Ok(local) => {
            let offset: i32 = match offset_from_local_datetime(timezone, &local).earliest() {
                Some(offset) => offset,
                None => offset_from_utc_datetime(timezone, &local),
            };
            utc_from_local(&local, offset)
        },
    }
}

/// Reads `datetime` under `pattern` as UTC and gives what a clock in
/// `timezone` shows at that instant.
///
/// The text fails to parse exactly when the result is an error with the
/// parser's diagnostic as its message. Otherwise the offset that the zone has
/// at that UTC instant is added; the result is an error only where that
/// leaves the supported years.
pub fn utc_datetime_to_local(datetime: &str, pattern: &str, timezone: &Tz) -> (result: Result<
    NaiveDateTime,
    InvalidArgumentError,
>)
    ensures
        local_outcome(result) == converted(
            parsed_datetime(datetime@, pattern@),
            local_of_utc(*timezone, parsed_datetime(datetime@, pattern@)->Ok_0@),
        ),
        result matches Ok(local) ==> local.wf(),
{
    match parse_from_str(datetime, pattern) {
        Err(message) => Err(InvalidArgumentError::new(message.as_str())),
        Ok(utc) => {
            let offset: i32 = offset_from_utc_datetime(timezone, &utc);
            local_from_utc(&utc, offset)
        },
    }
}

/// The number of the last day of the month in which `datetime` lies, going by
/// its wall-clock date: 28, 29, 30 or 31. Neither the time of day nor the
/// offset has a part in it.
pub fn get_latest_day(datetime: &DateTime) -> (day: u32)
    requires
        datetime.wf(),
    ensures
        day == days_in_month(datetime.local.date.year as int, datetime.local.date.month as int),
        28 <= day <= 31,
        datetime.local.date.month == 2 ==> day == (if is_leap_year(
            datetime.local.date.year as int,
        ) {
            29int
        } else {
            28int
        }),
        datetime.local.date.month == 12 ==> day == 31,
{
    let start = datetime.naive_local().date();
    match checked_add_months(&start, 1) {
        // Only December of the last supported year has no month after it.
        None => 31,
        Some(following) => {
            let first = following.with_day(1).unwrap();
            proof {
                reveal_with_fuel(CivilDate::plus_days, 2);
            }
            let last = checked_sub_days(&first, 1).unwrap();
            last.day()
        },
    }
}

/// The Monday on or before `date`.
pub open spec fn monday_of(date: CivilDate) -> CivilDate {
    date.plus_days(-date.weekday_index())
}

/// The Sunday on or after `date`: six days after [`monday_of`].
pub open spec fn sunday_of(date: CivilDate) -> CivilDate {
    monday_of(date).plus_days(6)
}

/// The Monday and the Sunday of the week of `datetime`, each at the time of
/// day of `datetime`, or nothing where one of the two falls outside the
/// supported years.
pub fn checked_week_start_end(datetime: &NaiveDateTime) -> (week: Option<
    (NaiveDateTime, NaiveDateTime),
>)
    requires
        datetime.wf(),
    ensures
        week is Some <==> monday_of(datetime@.date).in_range() && sunday_of(
            datetime@.date,
        ).in_range(),
        week matches Some(pair) ==> {
            &&& pair.0.wf() && pair.1.wf()
            &&& pair.0@.date == monday_of(datetime@.date)
            &&& pair.1@.date == sunday_of(datetime@.date)
            &&& pair.0.time == datetime.time
            &&& pair.1.time == datetime.time
        },
{
    let time = datetime.time();
    let current_day_of_week = weekday(&datetime.date());
    let days_since: u32 = current_day_of_week.days_since(Weekday::Mon);
    match checked_sub_days(&datetime.date(), days_since as u64) {
        None => None,
        Some(monday) => {
            match checked_add_days(&monday, 6) {
                None => None,
                Some(sunday) => Some(
                    (NaiveDateTime::new(monday, time), NaiveDateTime::new(sunday, time)),
                ),
            }
        },
    }
}

/// The Monday and the Sunday of the week, Monday to Sunday, in which
/// `datetime` lies, each at the time of day of `datetime`.
///
/// The Monday is a Monday on or before the date, the Sunday is a Sunday on or
/// after it, and the two are six days apart.
pub fn get_week_start_end(datetime: &NaiveDateTime) -> (week: (NaiveDateTime, NaiveDateTime))
    requires
        datetime.wf(),
        monday_of(datetime@.date).in_range(),
        sunday_of(datetime@.date).in_range(),
    ensures
        week.0.wf() && week.1.wf(),
        week.0@.date == monday_of(datetime@.date),
        week.1@.date == sunday_of(datetime@.date),
        week.0.time == datetime.time,
        week.1.time == datetime.time,
        week.0@.date.weekday_index() == 0,
        week.1@.date.weekday_index() == 6,
        week.0@.date.day_number() <= datetime@.date.day_number() <= week.1@.date.day_number(),
        week.1@.date.day_number() == week.0@.date.day_number() + 6,
{
    proof {
        lemma_week_bounds(datetime@.date);
    }
    checked_week_start_end(datetime).unwrap()
}

/// The week of a date runs from a Monday on or before it to the Sunday six
/// days later, which is on or after it.
pub proof fn lemma_week_bounds(date: CivilDate)
    requires
        date.valid(),
    ensures
        monday_of(date).valid(),
        sunday_of(date).valid(),
        monday_of(date).weekday_index() == 0,
        sunday_of(date).weekday_index() == 6,
        monday_of(date).day_number() == date.day_number() - date.weekday_index(),
        sunday_of(date).day_number() == monday_of(date).day_number() + 6,
        monday_of(date).day_number() <= date.day_number() <= sunday_of(date).day_number(),
{
    lemma_plus_days(date, -date.weekday_index());
    lemma_plus_days(monday_of(date), 6);
}

/// Every day from the Monday of a week to its Sunday has that same Monday and
/// that same Sunday.
pub proof fn lemma_week_is_shared(date: CivilDate, k: int)
    requires
        date.valid(),
        0 <= k <= 6,
    ensures
        monday_of(monday_of(date).plus_days(k)) == monday_of(date),
        sunday_of(monday_of(date).plus_days(k)) == sunday_of(date),
{
    let monday = monday_of(date);
    lemma_week_bounds(date);
    lemma_plus_days(monday, k);
    lemma_plus_days_inverse(monday, k);
}

/// A date that lies neither in the first nor in the last supported year has
/// its whole week within the supported years.
pub proof fn lemma_week_in_range(date: CivilDate)
    requires
        date.valid(),
        MIN_YEAR < date.year < MAX_YEAR,
    ensures
        monday_of(date).in_range(),
        sunday_of(date).in_range(),
{
    lemma_week_bounds(date);
    lemma_days_apart_years_apart(monday_of(date), date);
    lemma_days_apart_years_apart(date, sunday_of(date));
}

/// Taking the offset of a zone away from a wall-clock reading and adding the
/// same offset again gives the reading back.
pub proof fn lemma_local_utc_round_trip(zone: Tz, local: CivilDateTime)
    requires
        local.date.valid(),
        local.time.valid(),
    ensures
        utc_of_local(zone, local).plus_seconds(local_offset(zone, local)) == local,
{
    lemma_plus_seconds(local, -local_offset(zone, local));
}

/// Where the zone has, at the UTC instant that a wall-clock reading was
/// converted to, the offset that the reading was converted with, converting
/// back gives the reading. Next to a change of offset the two can differ, and
/// then the way back ends elsewhere.
pub proof fn lemma_round_trip_through_zone(zone: Tz, local: CivilDateTime)
    requires
        local.date.valid(),
        local.time.valid(),
        zone_offset_at_utc(zone, utc_of_local(zone, local)) == local_offset(zone, local),
    ensures
        local_of_utc(zone, utc_of_local(zone, local)) == local,
{
    lemma_plus_seconds(local, -local_offset(zone, local));
}

} // verus!
