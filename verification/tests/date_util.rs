use chrono_tz::Tz;
use cliff3_util::date_util::{
    get_latest_day, get_week_start_end, local_datetime_to_utc, utc_datetime_to_local,
};
use cliff3_util::naive::{DateTime, NaiveDate, NaiveDateTime, NaiveTime};

fn utc_with_ymd_and_hms(y: i32, m: u32, d: u32, h: u32, mi: u32, s: u32) -> DateTime {
    DateTime::from_utc(NaiveDateTime::new(
        NaiveDate::from_ymd_opt(y, m, d).unwrap(),
        NaiveTime::from_hms_opt(h, mi, s).unwrap(),
    ))
}

#[test]
fn local_datetime_to_utc_test() {
    // KST 2024-11-22 09:54:45
    // UTC 2024-11-22 00:54:45
    let str_datetime = "20241122095445"; // 2024-11-22 09:54:45
    let pattern = "%Y%m%d%H%M%S";
    let timezone = Tz::Asia__Seoul;

    let result = local_datetime_to_utc(str_datetime, pattern, &timezone);

    assert!(
        result.is_ok(),
        "{}",
        format!("변환 실패 : {:#?}", result.as_ref().unwrap_err())
    );

    let result = result.unwrap();

    println!("utc result => {:#?}", result);

    assert_eq!(2024, result.year());
    assert_eq!(11, result.month());
    assert_eq!(22, result.day());
    assert_eq!(0, result.hour());
    assert_eq!(54, result.minute());
    assert_eq!(45, result.second());
}

#[test]
fn utc_datetime_to_local_test() {
    // UTC 2024-11-22 22:54:45
    // KST 2024-11-23 07:54:45
    let utc_datetime = "20241122225445";
    let patter = "%Y%m%d%H%M%S";
    let timezone = Tz::Asia__Seoul;
    let result = utc_datetime_to_local(utc_datetime, patter, &timezone);

    assert!(
        result.is_ok(),
        "{}",
        format!("변환 실패 : {:#?}", result.as_ref().unwrap_err())
    );

    let result = result.unwrap();

    println!("local result => {:#?}", result);

    assert_eq!(2024, result.year());
    assert_eq!(11, result.month());
    assert_eq!(23, result.day());
    assert_eq!(7, result.hour());
    assert_eq!(54, result.minute());
    assert_eq!(45, result.second());
}

#[test]
fn get_latest_day_test() {
    // leap month 2024
    // normal     2025
    let utc_leap_datetime: DateTime = utc_with_ymd_and_hms(2024, 2, 11, 13, 27, 0);
    let latest_day = get_latest_day(&utc_leap_datetime);

    assert_eq!(29, latest_day);

    let utc_datetime = utc_with_ymd_and_hms(2025, 2, 11, 13, 27, 0);
    let latest_day = get_latest_day(&utc_datetime);

    assert_eq!(28, latest_day);
}

#[test]
fn get_week_start_end_test() {
    // 1978-06-22
    // Sunday : 06-25
    // Monday : 06-19
    let datetime = NaiveDateTime::new(
        NaiveDate::from_ymd_opt(1978, 6, 22).unwrap(),
        NaiveTime::from_hms_opt(0, 0, 0).unwrap(),
    );
    let (monday, sunday) = get_week_start_end(&datetime);

    assert_eq!(1978, monday.year());
    assert_eq!(6, monday.month());
    assert_eq!(19, monday.day());

    assert_eq!(6, sunday.month());
    assert_eq!(25, sunday.day());
}
