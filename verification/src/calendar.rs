//! The proleptic Gregorian calendar as mathematics: the lengths of months,
//! the day that follows or precedes a date, the count of days since the start
//! of year 1, and the day of the week. Everything here is specification and
//! proof; the executable types live in [`crate::naive`].

use vstd::prelude::*;

verus! {

/// The earliest year a date may lie in.
pub const MIN_YEAR: i32 = -262143;

/// The latest year a date may lie in.
pub const MAX_YEAR: i32 = 262142;

/// A year has 366 days when it is divisible by 4, except for century years
/// that are not divisible by 400.
pub open spec fn is_leap_year(year: int) -> bool {
    year % 4 == 0 && (year % 100 != 0 || year % 400 == 0)
}

/// The number of days of `month` (1 to 12) in `year`.
pub open spec fn days_in_month(year: int, month: int) -> int {
    if month == 2 {
        if is_leap_year(year) {
            29
        } else {
            28
        }
    } else if month == 4 || month == 6 || month == 9 || month == 11 {
        30
    } else {
        31
    }
}

/// The number of days of `year`.
pub open spec fn days_in_year(year: int) -> int {
    if is_leap_year(year) {
        366
    } else {
        365
    }
}

/// The number of days from the start of year 1 to the start of `year`
/// (negative for years before year 1).
pub open spec fn days_before_year(year: int) -> int {
    let y = year - 1;
    365 * y + y / 4 - y / 100 + y / 400
}

/// The number of days of `year` that lie before the first of `month`.
pub open spec fn days_before_month(year: int, month: int) -> int
    decreases month,
{
    if month <= 1 {
        0
    } else {
        days_before_month(year, month - 1) + days_in_month(year, month - 1)
    }
}

/// A calendar date as three mathematical integers.
pub struct CivilDate {
    pub year: int,
    pub month: int,
    pub day: int,
}

impl CivilDate {
    /// The month and the day exist in the calendar.
    pub open spec fn valid(self) -> bool {
        1 <= self.month <= 12 && 1 <= self.day <= days_in_month(self.year, self.month)
    }

    /// The date exists and its year lies between [`MIN_YEAR`] and [`MAX_YEAR`].
    pub open spec fn in_range(self) -> bool {
        self.valid() && MIN_YEAR <= self.year <= MAX_YEAR
    }

    /// The day after this one.
    pub open spec fn next(self) -> CivilDate {
        if self.day < days_in_month(self.year, self.month) {
            CivilDate { day: self.day + 1, ..self }
        } else if self.month < 12 {
            CivilDate { year: self.year, month: self.month + 1, day: 1 }
        } else {
            CivilDate { year: self.year + 1, month: 1, day: 1 }
        }
    }

    /// The day before this one.
    pub open spec fn prev(self) -> CivilDate {
        if self.day > 1 {
            CivilDate { day: self.day - 1, ..self }
        } else if self.month > 1 {
            CivilDate {
                year: self.year,
                month: self.month - 1,
                day: days_in_month(self.year, self.month - 1),
            }
        } else {
            CivilDate { year: self.year - 1, month: 12, day: 31 }
        }
    }

    /// The date `n` days after this one (before it, for negative `n`).
    pub open spec fn plus_days(self, n: int) -> CivilDate
        decreases (if n >= 0 { n } else { -n }),
    {
        if n > 0 {
            self.next().plus_days(n - 1)
        } else if n < 0 {
            self.prev().plus_days(n + 1)
        } else {
            self
        }
    }

    /// The date `months` months later: the same day of the month, or the last
    /// day of the target month where that month is shorter.
    pub open spec fn plus_months(self, months: int) -> CivilDate {
        let total = self.year * 12 + (self.month - 1) + months;
        let year = total / 12;
        let month = total % 12 + 1;
        let longest = days_in_month(year, month);
        CivilDate { year, month, day: if self.day > longest { longest } else { self.day } }
    }

    /// The count of days in which 1 January of year 1 is day 1.
    pub open spec fn day_number(self) -> int {
        days_before_year(self.year) + days_before_month(self.year, self.month) + self.day
    }

    /// The day of the week as a number: 0 for Monday up to 6 for Sunday.
    /// Day 1 of the count, 1 January of year 1, is a Monday.
    pub open spec fn weekday_index(self) -> int {
        (self.day_number() - 1) % 7
    }
}

/// The day after and the day before a date are dates, and undo each other.
pub proof fn lemma_next_prev(d: CivilDate)
    requires
        d.valid(),
    ensures
        d.next().valid(),
        d.prev().valid(),
        d.next().prev() == d,
        d.prev().next() == d,
{
}

/// A year is as long as its twelve months, and the next year starts that many
/// days later.
pub proof fn lemma_year_length(year: int)
    ensures
        days_before_month(year, 13) == days_in_year(year),
        days_before_year(year + 1) == days_before_year(year) + days_in_year(year),
{
    reveal_with_fuel(days_before_month, 14);
}

/// Stepping to the next day adds one to the day number; stepping back takes
/// one away.
pub proof fn lemma_day_number_step(d: CivilDate)
    requires
        d.valid(),
    ensures
        d.next().day_number() == d.day_number() + 1,
        d.prev().day_number() == d.day_number() - 1,
{
    lemma_year_length(d.year);
    lemma_year_length(d.year - 1);
    reveal_with_fuel(days_before_month, 14);
}

/// Moving by `n` days gives a date whose day number differs by `n`.
pub proof fn lemma_plus_days(d: CivilDate, n: int)
    requires
        d.valid(),
    ensures
        d.plus_days(n).valid(),
        d.plus_days(n).day_number() == d.day_number() + n,
    decreases (if n >= 0 { n } else { -n }),
{
    lemma_next_prev(d);
    lemma_day_number_step(d);
    if n > 0 {
        lemma_plus_days(d.next(), n - 1);
    } else if n < 0 {
        lemma_plus_days(d.prev(), n + 1);
    }
}

/// A time of day as mathematical integers. A nanosecond count of a thousand
/// million or more stands for a leap second.
pub struct ClockTime {
    pub hour: int,
    pub minute: int,
    pub second: int,
    pub nanosecond: int,
}

impl ClockTime {
    /// Every field lies in its range.
    pub open spec fn valid(self) -> bool {
        &&& 0 <= self.hour < 24
        &&& 0 <= self.minute < 60
        &&& 0 <= self.second < 60
        &&& 0 <= self.nanosecond < 2_000_000_000
    }

    /// Whole seconds since midnight.
    pub open spec fn second_of_day(self) -> int {
        self.hour * 3600 + self.minute * 60 + self.second
    }

    /// The time that lies `second_of_day` whole seconds after midnight.
    pub open spec fn at(second_of_day: int, nanosecond: int) -> ClockTime {
        ClockTime {
            hour: second_of_day / 3600,
            minute: (second_of_day / 60) % 60,
            second: second_of_day % 60,
            nanosecond,
        }
    }
}

/// A date with a time of day, and no time zone.
pub struct CivilDateTime {
    pub date: CivilDate,
    pub time: ClockTime,
}

impl CivilDateTime {
    /// The date is in range and the time is valid.
    pub open spec fn in_range(self) -> bool {
        self.date.in_range() && self.time.valid()
    }

    /// This date and time moved by `seconds` whole seconds; the nanoseconds
    /// stay as they are.
    pub open spec fn plus_seconds(self, seconds: int) -> CivilDateTime {
        let total = self.time.second_of_day() + seconds;
        CivilDateTime {
            date: self.date.plus_days(total / 86400),
            time: ClockTime::at(total % 86400, self.time.nanosecond),
        }
    }
}

/// Taking a time apart into seconds since midnight and putting it together
/// again gives the same time.
pub proof fn lemma_clock_round_trip(t: ClockTime)
    requires
        t.valid(),
    ensures
        0 <= t.second_of_day() < 86400,
        ClockTime::at(t.second_of_day(), t.nanosecond) == t,
{
}

/// A count of seconds within one day makes a valid time that holds it.
pub proof fn lemma_clock_at(second_of_day: int, nanosecond: int)
    requires
        0 <= second_of_day < 86400,
        0 <= nanosecond < 2_000_000_000,
    ensures
        ClockTime::at(second_of_day, nanosecond).valid(),
        ClockTime::at(second_of_day, nanosecond).second_of_day() == second_of_day,
{
}

/// A year has 365 or 366 days, so the days before a date grow with its year.
pub proof fn lemma_day_number_bounds(d: CivilDate)
    requires
        d.valid(),
    ensures
        days_before_year(d.year) < d.day_number() <= days_before_year(d.year + 1),
{
    lemma_year_length(d.year);
    reveal_with_fuel(days_before_month, 14);
}

/// The days before a year grow by at least 365 with each year.
pub proof fn lemma_days_before_year_grows(earlier: int, later: int)
    requires
        earlier <= later,
    ensures
        days_before_year(later) - days_before_year(earlier) >= 365 * (later - earlier),
    decreases later - earlier,
{
    if earlier < later {
        lemma_year_length(later - 1);
        lemma_days_before_year_grows(earlier, later - 1);
    }
}

/// Two dates less than a year's worth of days apart lie in the same year or
/// in years next to each other.
pub proof fn lemma_days_apart_years_apart(earlier: CivilDate, later: CivilDate)
    requires
        earlier.valid(),
        later.valid(),
        0 <= later.day_number() - earlier.day_number() < 365,
    ensures
        earlier.year <= later.year <= earlier.year + 1,
{
    lemma_day_number_bounds(earlier);
    lemma_day_number_bounds(later);
    if later.year < earlier.year {
        lemma_days_before_year_grows(later.year + 1, earlier.year);
    }
    if later.year > earlier.year + 1 {
        lemma_days_before_year_grows(earlier.year + 1, later.year);
    }
}

/// Moving by `n` days and then one day on is the same as one day on and then
/// `n` days; likewise for one day back.
pub proof fn lemma_plus_days_step(d: CivilDate, n: int)
    requires
        d.valid(),
    ensures
        d.plus_days(n).next() == d.next().plus_days(n),
        d.plus_days(n).prev() == d.prev().plus_days(n),
    decreases (if n >= 0 { n } else { -n }),
{
    lemma_next_prev(d);
    if n > 0 {
        lemma_plus_days_step(d.next(), n - 1);
    } else if n < 0 {
        lemma_plus_days_step(d.prev(), n + 1);
    }
}

/// Moving by `n` days and then back by `n` days returns to the date.
pub proof fn lemma_plus_days_inverse(d: CivilDate, n: int)
    requires
        d.valid(),
    ensures
        d.plus_days(n).plus_days(-n) == d,
    decreases (if n >= 0 { n } else { -n }),
{
    lemma_next_prev(d);
    if n > 0 {
        lemma_plus_days_step(d.next(), n - 1);
        lemma_plus_days_inverse(d, n - 1);
        assert(d.plus_days(n).prev() == d.plus_days(n - 1));
    } else if n < 0 {
        lemma_plus_days_step(d.prev(), n + 1);
        lemma_plus_days_inverse(d, n + 1);
        assert(d.plus_days(n).next() == d.plus_days(n + 1));
    }
}

/// Moving a date and time by any number of seconds gives a date and a valid
/// time, and moving back by the same number returns to where it started.
pub proof fn lemma_plus_seconds(dt: CivilDateTime, seconds: int)
    requires
        dt.date.valid(),
        dt.time.valid(),
    ensures
        dt.plus_seconds(seconds).date.valid(),
        dt.plus_seconds(seconds).time.valid(),
        dt.plus_seconds(seconds).plus_seconds(-seconds) == dt,
{
    let total = dt.time.second_of_day() + seconds;
    let days = total / 86400;
    let rest = total % 86400;
    lemma_clock_round_trip(dt.time);
    lemma_clock_at(rest, dt.time.nanosecond);
    lemma_plus_days(dt.date, days);
    lemma_plus_days_inverse(dt.date, days);
    let back = rest - seconds;
    assert(back == dt.time.second_of_day() - 86400 * days);
    assert(back / 86400 == -days && back % 86400 == dt.time.second_of_day());
}

} // verus!
