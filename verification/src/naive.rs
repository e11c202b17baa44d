//! Dates and times as plain values: a date, a time of day, the two together,
//! and a date and time with a UTC offset. Each has a mathematical view in
//! [`crate::calendar`] and a well-formedness predicate that its constructors
//! establish.

use crate::calendar::{
    days_before_month, days_in_month, is_leap_year, CivilDate, CivilDateTime, ClockTime, MAX_YEAR,
    MIN_YEAR,
};
use vstd::prelude::*;

verus! {

/// Whether `year` is a leap year.
pub fn leap_year(year: i32) -> (leap: bool)
    ensures
        leap == is_leap_year(year as int),
{
    year % 4 == 0 && (year % 100 != 0 || year % 400 == 0)
}

/// The number of days of `month` in `year`, for a month from 1 to 12.
pub fn month_length(year: i32, month: u32) -> (days: u32)
    requires
        1 <= month <= 12,
    ensures
        days == days_in_month(year as int, month as int),
{
    if month == 2 {
        if leap_year(year) {
            29
        } else {
            28
        }
    } else if month == 4 || month == 6 || month == 9 || month == 11 {
        30
    } else {
        31
    }
}

/// A calendar date in the proleptic Gregorian calendar.
#[derive(Clone, Copy, Debug, PartialEq, Eq, Structural)]
pub struct NaiveDate {
    pub year: i32,
    pub month: u32,
    pub day: u32,
}

impl View for NaiveDate {
    type V = CivilDate;

    open spec fn view(&self) -> CivilDate {
        CivilDate { year: self.year as int, month: self.month as int, day: self.day as int }
    }
}

impl NaiveDate {
    /// The date exists and its year is in the supported range.
    pub open spec fn wf(&self) -> bool {
        self@.in_range()
    }

    /// The date with this year, month and day, if there is one in range.
    pub fn from_ymd_opt(year: i32, month: u32, day: u32) -> (date: Option<NaiveDate>)
        ensures
            date is Some <==> (NaiveDate { year, month, day })@.in_range(),
            date is Some ==> date->0 == (NaiveDate { year, month, day }),
    {
        if year < MIN_YEAR || year > MAX_YEAR || month < 1 || month > 12 || day < 1 {
            return None;
        }
        if day > month_length(year, month) {
            return None;
        }
        Some(NaiveDate { year, month, day })
    }

    /// The same year and month on day `day`, if the month has such a day.
    pub fn with_day(&self, day: u32) -> (changed: Option<NaiveDate>)
        ensures
            changed is Some <==> (NaiveDate { day, ..*self })@.in_range(),
            changed is Some ==> changed->0 == (NaiveDate { day, ..*self }),
    {
        NaiveDate::from_ymd_opt(self.year, self.month, day)
    }

    /// The number of the day in the count in which 1 January of year 1 is
    /// day 1.
    pub fn num_days_from_ce(&self) -> (days: i32)
        requires
            self.wf(),
        ensures
            days == self@.day_number(),
    {
        // Years are moved up by 656 cycles of 400 years, each of 146097 days,
        // so that the divisions below act on a positive number.
        let shifted: i64 = (self.year as i64) - 1 + 262400;
        let before_year: i64 = 365 * shifted + shifted / 4 - shifted / 100 + shifted / 400
            - 95839632;
        let mut before_month: i64 = 0;
        let mut month: u32 = 1;
        while month < self.month
            invariant
                1 <= month <= self.month <= 12,
                before_month == days_before_month(self.year as int, month as int),
                0 <= before_month <= 31 * (month - 1),
            decreases self.month - month,
        {
            before_month = before_month + (month_length(self.year, month) as i64);
            month = month + 1;
        }
        (before_year + before_month + (self.day as i64)) as i32
    }

    /// The year.
    pub fn year(&self) -> (year: i32)
        ensures
            year == self.year,
    {
        self.year
    }

    /// The month, from 1 to 12.
    pub fn month(&self) -> (month: u32)
        ensures
            month == self.month,
    {
        self.month
    }

    /// The day of the month, from 1.
    pub fn day(&self) -> (day: u32)
        ensures
            day == self.day,
    {
        self.day
    }
}

/// A time of day. A `nanosecond` of a thousand million or more marks a leap
/// second.
#[derive(Clone, Copy, Debug, PartialEq, Eq, Structural)]
pub struct NaiveTime {
    pub hour: u32,
    pub minute: u32,
    pub second: u32,
    pub nanosecond: u32,
}

impl View for NaiveTime {
    type V = ClockTime;

    open spec fn view(&self) -> ClockTime {
        ClockTime {
            hour: self.hour as int,
            minute: self.minute as int,
            second: self.second as int,
            nanosecond: self.nanosecond as int,
        }
    }
}

impl NaiveTime {
    /// Every field lies in its range.
    pub open spec fn wf(&self) -> bool {
        self@.valid()
    }

    /// The time with this hour, minute and second and no fraction, if the
    /// three are in range.
    pub fn from_hms_opt(hour: u32, minute: u32, second: u32) -> (time: Option<NaiveTime>)
        ensures
            time is Some <==> hour < 24 && minute < 60 && second < 60,
            time is Some ==> time->0 == (NaiveTime { hour, minute, second, nanosecond: 0 }),
            time is Some ==> time->0.wf(),
    {
        if hour >= 24 || minute >= 60 || second >= 60 {
            return None;
        }
        Some(NaiveTime { hour, minute, second, nanosecond: 0 })
    }

    /// The hour, from 0 to 23.
    pub fn hour(&self) -> (hour: u32)
        ensures
            hour == self.hour,
    {
        self.hour
    }

    /// The minute, from 0 to 59.
    pub fn minute(&self) -> (minute: u32)
        ensures
            minute == self.minute,
    {
        self.minute
    }

    /// The second, from 0 to 59.
    pub fn second(&self) -> (second: u32)
        ensures
            second == self.second,
    {
        self.second
    }

    /// The nanoseconds since the start of the second.
    pub fn nanosecond(&self) -> (nanosecond: u32)
        ensures
            nanosecond == self.nanosecond,
    {
        self.nanosecond
    }
}

/// A date and a time of day with no time zone attached.
#[derive(Clone, Copy, Debug, PartialEq, Eq, Structural)]
pub struct NaiveDateTime {
    pub date: NaiveDate,
    pub time: NaiveTime,
}

impl View for NaiveDateTime {
    type V = CivilDateTime;

    open spec fn view(&self) -> CivilDateTime {
        CivilDateTime { date: self.date@, time: self.time@ }
    }
}

impl NaiveDateTime {
    /// Both parts are well formed.
    pub open spec fn wf(&self) -> bool {
        self.date.wf() && self.time.wf()
    }

    /// Puts a date and a time of day together.
    pub fn new(date: NaiveDate, time: NaiveTime) -> (datetime: NaiveDateTime)
        ensures
            datetime == (NaiveDateTime { date, time }),
            datetime.wf() <==> date.wf() && time.wf(),
    {
        NaiveDateTime { date, time }
    }

    /// The date.
    pub fn date(&self) -> (date: NaiveDate)
        ensures
            date == self.date,
    {
        self.date
    }

    /// The time of day.
    pub fn time(&self) -> (time: NaiveTime)
        ensures
            time == self.time,
    {
        self.time
    }

    /// The year.
    pub fn year(&self) -> (year: i32)
        ensures
            year == self.date.year,
    {
        self.date.year
    }

    /// The month, from 1 to 12.
    pub fn month(&self) -> (month: u32)
        ensures
            month == self.date.month,
    {
        self.date.month
    }

    /// The day of the month, from 1.
    pub fn day(&self) -> (day: u32)
        ensures
            day == self.date.day,
    {
        self.date.day
    }

    /// The hour, from 0 to 23.
    pub fn hour(&self) -> (hour: u32)
        ensures
            hour == self.time.hour,
    {
        self.time.hour
    }

    /// The minute, from 0 to 59.
    pub fn minute(&self) -> (minute: u32)
        ensures
            minute == self.time.minute,
    {
        self.time.minute
    }

    /// The second, from 0 to 59.
    pub fn second(&self) -> (second: u32)
        ensures
            second == self.time.second,
    {
        self.time.second
    }
}

/// A date and time together with the offset from UTC, in seconds east of
/// Greenwich, under which it is read. `local` is the wall-clock reading; a UTC
/// date and time has offset 0.
#[derive(Clone, Copy, Debug, PartialEq, Eq, Structural)]
pub struct DateTime {
    pub local: NaiveDateTime,
    pub offset_seconds: i32,
}

impl DateTime {
    /// The wall-clock reading is well formed and the offset is less than a
    /// day either way.
    pub open spec fn wf(&self) -> bool {
        self.local.wf() && -86400 < self.offset_seconds < 86400
    }

    /// Whether the offset from UTC is zero.
    pub open spec fn is_utc(&self) -> bool {
        self.offset_seconds == 0
    }

    /// Reads `datetime` as UTC.
    pub fn from_utc(datetime: NaiveDateTime) -> (zoned: DateTime)
        ensures
            zoned == (DateTime { local: datetime, offset_seconds: 0 }),
            zoned.wf() <==> datetime.wf(),
    {
        DateTime { local: datetime, offset_seconds: 0 }
    }

    /// Reads `local` as wall-clock time at `offset_seconds` east of Greenwich,
    /// if that offset is less than a day either way.
    pub fn with_offset(local: NaiveDateTime, offset_seconds: i32) -> (zoned: Option<DateTime>)
        ensures
            zoned is Some <==> -86400 < offset_seconds < 86400,
            zoned is Some ==> zoned->0 == (DateTime { local, offset_seconds }),
    {
        if offset_seconds <= -86400 || offset_seconds >= 86400 {
            return None;
        }
        Some(DateTime { local, offset_seconds })
    }

    /// The wall-clock date and time.
    pub fn naive_local(&self) -> (local: NaiveDateTime)
        ensures
            local == self.local,
    {
        self.local
    }

    /// The offset from UTC, in seconds east of Greenwich.
    pub fn offset_seconds(&self) -> (offset: i32)
        ensures
            offset == self.offset_seconds,
    {
        self.offset_seconds
    }

    /// The year.
    pub fn year(&self) -> (year: i32)
        ensures
            year == self.local.date.year,
    {
        self.local.date.year
    }

    /// The month, from 1 to 12.
    pub fn month(&self) -> (month: u32)
        ensures
            month == self.local.date.month,
    {
        self.local.date.month
    }

    /// The day of the month, from 1.
    pub fn day(&self) -> (day: u32)
        ensures
            day == self.local.date.day,
    {
        self.local.date.day
    }

    /// The hour, from 0 to 23.
    pub fn hour(&self) -> (hour: u32)
        ensures
            hour == self.local.time.hour,
    {
        self.local.time.hour
    }

    /// The minute, from 0 to 59.
    pub fn minute(&self) -> (minute: u32)
        ensures
            minute == self.local.time.minute,
    {
        self.local.time.minute
    }

    /// The second, from 0 to 59.
    pub fn second(&self) -> (second: u32)
        ensures
            second == self.local.time.second,
    {
        self.local.time.second
    }
}

/// A day of the week.
#[derive(Clone, Copy, Debug, PartialEq, Eq, Structural)]
pub enum Weekday {
    Mon,
    Tue,
    Wed,
    Thu,
    Fri,
    Sat,
    Sun,
}

impl Weekday {
    /// The number of the day, counted from Monday as 0 to Sunday as 6.
    pub open spec fn index(self) -> int {
        match self {
            Weekday::Mon => 0,
            Weekday::Tue => 1,
            Weekday::Wed => 2,
            Weekday::Thu => 3,
            Weekday::Fri => 4,
            Weekday::Sat => 5,
            Weekday::Sun => 6,
        }
    }

    /// The number of the day, counted from Monday as 0 to Sunday as 6.
    pub fn num_days_from_monday(&self) -> (number: u32)
        ensures
            number == self.index(),
    {
        match self {
            Weekday::Mon => 0,
            Weekday::Tue => 1,
            Weekday::Wed => 2,
            Weekday::Thu => 3,
            Weekday::Fri => 4,
            Weekday::Sat => 5,
            Weekday::Sun => 6,
        }
    }

    /// How many days after the most recent `other` this day of the week
    /// falls: 0 when the two are the same day, at most 6.
    pub fn days_since(&self, other: Weekday) -> (days: u32)
        ensures
            days == (self.index() - other.index()) % 7,
    {
        let lhs: u32 = self.num_days_from_monday();
        let rhs: u32 = other.num_days_from_monday();
        if lhs < rhs {
            7 + lhs - rhs
        } else {
            lhs - rhs
        }
    }
}

/// What a time zone says of a wall-clock reading: no offset where the clocks
/// skipped over it, one offset in the ordinary case, two where the clocks
/// were set back and the reading occurred twice. Offsets are seconds east of
/// Greenwich.
#[derive(Clone, Copy, Debug, PartialEq, Eq, Structural)]
pub enum LocalOffset {
    Gap,
    Single(i32),
    Ambiguous(i32, i32),
}

impl LocalOffset {
    /// Every offset held is less than a day either way.
    pub open spec fn wf(self) -> bool {
        match self {
            LocalOffset::Gap => true,
            LocalOffset::Single(offset) => -86400 < offset < 86400,
            LocalOffset::Ambiguous(first, second) => {
                -86400 < first < 86400 && -86400 < second < 86400
            },
        }
    }

    /// The offset to use where there is a choice: the only one, or the one in
    /// force first where there are two.
    pub open spec fn earliest_spec(self) -> Option<i32> {
        match self {
            LocalOffset::Gap => None,
            LocalOffset::Single(offset) => Some(offset),
            LocalOffset::Ambiguous(first, _) => Some(first),
        }
    }

    /// The offset to use where there is a choice: the only one, or the one in
    /// force first where there are two.
    pub fn earliest(&self) -> (offset: Option<i32>)
        ensures
            offset == self.earliest_spec(),
    {
        match self {
            LocalOffset::Gap => None,
            LocalOffset::Single(offset) => Some(*offset),
            LocalOffset::Ambiguous(first, _) => Some(*first),
        }
    }
}

} // verus!
