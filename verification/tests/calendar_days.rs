use chrono::{Datelike, Days};
use cliff3_util::date_util::{checked_week_start_end, get_latest_day, get_week_start_end};
use cliff3_util::naive::{
    leap_year, month_length, DateTime, NaiveDate, NaiveDateTime, NaiveTime, Weekday,
};

fn date(y: i32, m: u32, d: u32) -> NaiveDate {
    NaiveDate::from_ymd_opt(y, m, d).unwrap()
}

fn at(y: i32, m: u32, d: u32, h: u32, mi: u32, s: u32) -> NaiveDateTime {
    NaiveDateTime::new(date(y, m, d), NaiveTime::from_hms_opt(h, mi, s).unwrap())
}

fn from_chrono(d: chrono::NaiveDate) -> NaiveDate {
    date(d.year(), d.month(), d.day())
}

#[test]
fn last_day_of_every_month() {
    let common = [31, 28, 31, 30, 31, 30, 31, 31, 30, 31, 30, 31];
    for month in 1..=12u32 {
        let expected = common[month as usize - 1];
        assert_eq!(get_latest_day(&DateTime::from_utc(at(2023, month, 15, 8, 0, 0))), expected);
        let leap = if month == 2 { 29 } else { expected };
        assert_eq!(get_latest_day(&DateTime::from_utc(at(2024, month, 1, 0, 0, 0))), leap);
    }
}

#[test]
fn february_follows_the_leap_year_rule() {
    assert_eq!(get_latest_day(&DateTime::from_utc(at(2024, 2, 29, 23, 59, 59))), 29);
    assert_eq!(get_latest_day(&DateTime::from_utc(at(2025, 2, 1, 0, 0, 0))), 28);
    assert_eq!(get_latest_day(&DateTime::from_utc(at(2000, 2, 10, 0, 0, 0))), 29);
    assert_eq!(get_latest_day(&DateTime::from_utc(at(1900, 2, 10, 0, 0, 0))), 28);
    assert_eq!(get_latest_day(&DateTime::from_utc(at(2100, 2, 28, 0, 0, 0))), 28);
    assert_eq!(get_latest_day(&DateTime::from_utc(at(0, 2, 28, 0, 0, 0))), 29);
    assert_eq!(get_latest_day(&DateTime::from_utc(at(-4, 2, 28, 0, 0, 0))), 29);
    assert_eq!(get_latest_day(&DateTime::from_utc(at(-100, 2, 28, 0, 0, 0))), 28);
}

#[test]
fn december_has_thirty_one_days() {
    assert_eq!(get_latest_day(&DateTime::from_utc(at(2024, 12, 1, 0, 0, 0))), 31);
    assert_eq!(get_latest_day(&DateTime::from_utc(at(2024, 12, 31, 23, 59, 59))), 31);
    assert_eq!(get_latest_day(&DateTime::from_utc(at(1999, 12, 31, 12, 0, 0))), 31);
    // The last supported year has no January after it.
    assert_eq!(get_latest_day(&DateTime::from_utc(at(262142, 12, 31, 23, 59, 59))), 31);
    assert_eq!(get_latest_day(&DateTime::from_utc(at(262142, 11, 30, 0, 0, 0))), 30);
    assert_eq!(get_latest_day(&DateTime::from_utc(at(-262143, 1, 1, 0, 0, 0))), 31);
}

#[test]
fn last_day_goes_by_the_wall_clock_date() {
    let local = at(2024, 3, 1, 8, 0, 0);
    for offset in [-43200, -3600, 0, 32400, 50400] {
        let zoned = DateTime::with_offset(local, offset).unwrap();
        assert_eq!(get_latest_day(&zoned), 31);
    }
    for hour in 0..24 {
        assert_eq!(get_latest_day(&DateTime::from_utc(at(2024, 2, 29, hour, 30, 0))), 29);
    }
}

#[test]
fn last_day_agrees_with_the_length_of_the_month() {
    for year in [-401, -400, -1, 0, 1, 1600, 1900, 1999, 2000, 2023, 2024, 2100, 2400] {
        for month in 1..=12u32 {
            let zoned = DateTime::from_utc(at(year, month, 1, 0, 0, 0));
            let last = get_latest_day(&zoned);
            assert_eq!(last, month_length(year, month));
            assert!(NaiveDate::from_ymd_opt(year, month, last).is_some());
            assert!(NaiveDate::from_ymd_opt(year, month, last + 1).is_none());
        }
    }
}

#[test]
fn week_of_a_thursday() {
    let (monday, sunday) = get_week_start_end(&at(1978, 6, 22, 0, 0, 0));
    assert_eq!(monday, at(1978, 6, 19, 0, 0, 0));
    assert_eq!(sunday, at(1978, 6, 25, 0, 0, 0));
}

#[test]
fn week_keeps_the_time_of_day() {
    let (monday, sunday) = get_week_start_end(&at(2024, 11, 22, 13, 45, 10));
    assert_eq!(monday, at(2024, 11, 18, 13, 45, 10));
    assert_eq!(sunday, at(2024, 11, 24, 13, 45, 10));
}

#[test]
fn week_of_a_monday_and_of_a_sunday() {
    let (monday, sunday) = get_week_start_end(&at(2024, 1, 1, 9, 0, 0));
    assert_eq!(monday, at(2024, 1, 1, 9, 0, 0));
    assert_eq!(sunday, at(2024, 1, 7, 9, 0, 0));
    let (monday, sunday) = get_week_start_end(&at(2024, 1, 7, 9, 0, 0));
    assert_eq!(monday, at(2024, 1, 1, 9, 0, 0));
    assert_eq!(sunday, at(2024, 1, 7, 9, 0, 0));
}

#[test]
fn week_across_month_and_year_boundaries() {
    let (monday, sunday) = get_week_start_end(&at(2025, 1, 1, 0, 0, 0));
    assert_eq!(monday, at(2024, 12, 30, 0, 0, 0));
    assert_eq!(sunday, at(2025, 1, 5, 0, 0, 0));
    let (monday, sunday) = get_week_start_end(&at(2024, 2, 29, 0, 0, 0));
    assert_eq!(monday, at(2024, 2, 26, 0, 0, 0));
    assert_eq!(sunday, at(2024, 3, 3, 0, 0, 0));
    let (monday, sunday) = get_week_start_end(&at(2023, 3, 1, 0, 0, 0));
    assert_eq!(monday, at(2023, 2, 27, 0, 0, 0));
    assert_eq!(sunday, at(2023, 3, 5, 0, 0, 0));
}

#[test]
fn week_runs_from_a_monday_to_the_sunday_six_days_later() {
    let mut day = chrono::NaiveDate::from_ymd_opt(1999, 12, 1).unwrap();
    for _ in 0..1000 {
        let here = NaiveDateTime::new(from_chrono(day), NaiveTime::from_hms_opt(6, 7, 8).unwrap());
        let (monday, sunday) = get_week_start_end(&here);
        let number = here.date().num_days_from_ce();
        let first = monday.date().num_days_from_ce();
        let last = sunday.date().num_days_from_ce();
        assert_eq!((first - 1).rem_euclid(7), 0);
        assert_eq!(last, first + 6);
        assert!(first <= number && number <= last);
        assert_eq!(monday.time(), here.time());
        assert_eq!(sunday.time(), here.time());
        let back = day.weekday().num_days_from_monday() as u64;
        assert_eq!(monday.date(), from_chrono(day - Days::new(back)));
        assert_eq!(sunday.date(), from_chrono(day - Days::new(back) + Days::new(6)));
        assert_eq!(checked_week_start_end(&here), Some((monday, sunday)));
        day = day.succ_opt().unwrap();
    }
}

#[test]
fn week_at_the_ends_of_the_supported_years() {
    let time = NaiveTime::from_hms_opt(12, 0, 0).unwrap();
    let mut some = 0;
    let mut none = 0;
    for back in 0..14u64 {
        for day in [chrono::NaiveDate::MAX - Days::new(back), chrono::NaiveDate::MIN + Days::new(back)] {
            let weekday = day.weekday().num_days_from_monday() as u64;
            let expected = day
                .checked_sub_days(Days::new(weekday))
                .and_then(|monday| Some((monday, monday.checked_add_days(Days::new(6))?)))
                .map(|(m, s)| {
                    (NaiveDateTime::new(from_chrono(m), time), NaiveDateTime::new(from_chrono(s), time))
                });
            let week = checked_week_start_end(&NaiveDateTime::new(from_chrono(day), time));
            assert_eq!(week, expected);
            if week.is_some() {
                some += 1;
            } else {
                none += 1;
            }
        }
    }
    assert!(some > 0 && none > 0);
}

#[test]
fn day_numbers_agree_with_chrono() {
    assert_eq!(date(1, 1, 1).num_days_from_ce(), 1);
    assert_eq!(date(0, 12, 31).num_days_from_ce(), 0);
    assert_eq!(date(1970, 1, 1).num_days_from_ce(), 719_163);
    assert_eq!(date(1978, 6, 22).num_days_from_ce(), 722_257);
    let mut day = chrono::NaiveDate::from_ymd_opt(-801, 1, 1).unwrap();
    while day.year() < 2801 {
        assert_eq!(from_chrono(day).num_days_from_ce(), day.num_days_from_ce());
        day = day + Days::new(13);
    }
    for day in [chrono::NaiveDate::MIN, chrono::NaiveDate::MAX] {
        assert_eq!(from_chrono(day).num_days_from_ce(), day.num_days_from_ce());
    }
}

#[test]
fn dates_that_exist_and_dates_that_do_not() {
    assert_eq!(NaiveDate::from_ymd_opt(2024, 2, 29), Some(NaiveDate { year: 2024, month: 2, day: 29 }));
    assert_eq!(NaiveDate::from_ymd_opt(2023, 2, 29), None);
    assert_eq!(NaiveDate::from_ymd_opt(2024, 0, 1), None);
    assert_eq!(NaiveDate::from_ymd_opt(2024, 13, 1), None);
    assert_eq!(NaiveDate::from_ymd_opt(2024, 4, 0), None);
    assert_eq!(NaiveDate::from_ymd_opt(2024, 4, 31), None);
    assert_eq!(NaiveDate::from_ymd_opt(262143, 1, 1), None);
    assert_eq!(NaiveDate::from_ymd_opt(-262144, 12, 31), None);
    assert!(NaiveDate::from_ymd_opt(262142, 12, 31).is_some());
    assert!(NaiveDate::from_ymd_opt(-262143, 1, 1).is_some());
    for year in [-262143, -5, 1900, 2000, 2023, 2024, 262142] {
        for month in 0..14 {
            for day in 0..33 {
                let ours = NaiveDate::from_ymd_opt(year, month, day);
                let theirs = chrono::NaiveDate::from_ymd_opt(year, month, day);
                assert_eq!(ours, theirs.map(from_chrono));
            }
        }
    }
}

#[test]
fn parts_of_a_date_and_time() {
    let here = at(2024, 11, 22, 10, 29, 48);
    assert_eq!(
        (here.year(), here.month(), here.day(), here.hour(), here.minute(), here.second()),
        (2024, 11, 22, 10, 29, 48)
    );
    assert_eq!((here.date().year(), here.date().month(), here.date().day()), (2024, 11, 22));
    let time = here.time();
    assert_eq!((time.hour(), time.minute(), time.second(), time.nanosecond()), (10, 29, 48, 0));
    assert_eq!(here.date().with_day(30), Some(date(2024, 11, 30)));
    assert_eq!(here.date().with_day(31), None);
    assert_eq!(here.date().with_day(0), None);
    let zoned = DateTime::with_offset(here, 32400).unwrap();
    assert_eq!(
        (zoned.year(), zoned.month(), zoned.day(), zoned.hour(), zoned.minute(), zoned.second()),
        (2024, 11, 22, 10, 29, 48)
    );
    assert_eq!(zoned.naive_local(), here);
    assert_eq!(zoned.offset_seconds(), 32400);
    assert_eq!(DateTime::with_offset(here, 86400), None);
    assert_eq!(DateTime::with_offset(here, -86400), None);
    assert!(DateTime::with_offset(here, -86399).is_some());
    assert_eq!(DateTime::from_utc(here), DateTime::with_offset(here, 0).unwrap());
}

#[test]
fn times_that_exist_and_times_that_do_not() {
    assert!(NaiveTime::from_hms_opt(23, 59, 59).is_some());
    assert!(NaiveTime::from_hms_opt(0, 0, 0).is_some());
    assert_eq!(NaiveTime::from_hms_opt(24, 0, 0), None);
    assert_eq!(NaiveTime::from_hms_opt(0, 60, 0), None);
    assert_eq!(NaiveTime::from_hms_opt(0, 0, 60), None);
}

#[test]
fn leap_years_and_month_lengths() {
    assert!(leap_year(2024) && leap_year(2000) && leap_year(0) && leap_year(-400));
    assert!(!leap_year(2023) && !leap_year(1900) && !leap_year(2100) && !leap_year(-100));
    assert_eq!(month_length(2024, 2), 29);
    assert_eq!(month_length(2023, 2), 28);
    assert_eq!(month_length(2023, 4), 30);
    assert_eq!(month_length(2023, 12), 31);
}

#[test]
fn days_since_another_day_of_the_week() {
    let days = [
        Weekday::Mon,
        Weekday::Tue,
        Weekday::Wed,
        Weekday::Thu,
        Weekday::Fri,
        Weekday::Sat,
        Weekday::Sun,
    ];
    for (i, day) in days.iter().enumerate() {
        assert_eq!(day.num_days_from_monday(), i as u32);
        assert_eq!(day.days_since(Weekday::Mon), i as u32);
        for (j, other) in days.iter().enumerate() {
            assert_eq!(day.days_since(*other), (7 + i as u32 - j as u32) % 7);
        }
    }
    assert_eq!(Weekday::Mon.days_since(Weekday::Sun), 1);
    assert_eq!(Weekday::Sun.days_since(Weekday::Mon), 6);
}
