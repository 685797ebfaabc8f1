use bma_ts::Timestamp;
use chrono::{Local, TimeZone, Timelike};
use iec60870::types::time::{CP24Time2a, CP56Time2a, ClockFields, DayOfWeek, LocalTime};
use iec60870::Error;

fn noon() -> LocalTime {
    LocalTime {
        year: 2024,
        month: 7,
        day: 1,
        weekday: 1,
        hour: 12,
        minute: 34,
        second: 56,
        nanosecond: 789_000_000,
        offset: 7200,
    }
}

#[test]
fn test_cp56time2a_from_timestamp() {
    let t: Timestamp = Local
        .with_ymd_and_hms(2024, 7, 1, 12, 34, 56)
        .unwrap()
        .with_nanosecond(789_000_000)
        .unwrap()
        .try_into()
        .unwrap();
    let cp56time2a = CP56Time2a::try_from_timestamp(t).unwrap();
    assert_eq!(cp56time2a.ms, 56789);
    assert_eq!(cp56time2a.min, 34);
    assert_eq!(cp56time2a.hour, 12);
    assert_eq!(cp56time2a.day, 1);
    assert_eq!(cp56time2a.month, 7);
    assert_eq!(cp56time2a.year, 24);
    assert_eq!(cp56time2a.dow, 1.into());
    assert!(!cp56time2a.iv);
}

#[test]
fn test_timestamp_from_cp56time2a() {
    let cp56time2a = CP56Time2a {
        ms: 56789,
        min: 34,
        iv: false,
        hour: 12,
        day: 1,
        month: 7,
        year: 24,
        su: false,
        dow: 1.into(),
    };
    let timestamp = cp56time2a.try_into_timestamp().unwrap();
    let t: Timestamp = Local
        .with_ymd_and_hms(2024, 7, 1, 12, 34, 56)
        .unwrap()
        .with_nanosecond(789_000_000)
        .unwrap()
        .try_into()
        .unwrap();
    assert_eq!(timestamp, t);
}

#[test]
fn cp24_from_timestamp_and_back() {
    let t: Timestamp = Local
        .with_ymd_and_hms(2024, 7, 1, 12, 34, 56)
        .unwrap()
        .with_nanosecond(789_000_000)
        .unwrap()
        .try_into()
        .unwrap();
    let cp24 = CP24Time2a::try_from_timestamp(t).unwrap();
    assert_eq!(cp24, CP24Time2a { ms: 56789, min: 34, iv: false });
    let back = cp24.try_into_timestamp().unwrap();
    let local = back.try_into_datetime_local().unwrap();
    assert_eq!(local.minute(), 34);
    assert_eq!(local.second(), 56);
    assert_eq!(local.nanosecond(), 789_000_000);
}

#[test]
fn cp56_refuses_a_date_that_does_not_exist() {
    let t = CP56Time2a {
        ms: 0,
        min: 0,
        iv: false,
        hour: 0,
        day: 31,
        month: 2,
        year: 24,
        su: false,
        dow: DayOfWeek::Monday,
    };
    assert_eq!(t.try_into_timestamp(), Err(Error::Conversion));
    let t = CP56Time2a { hour: 24, day: 1, ..t };
    assert_eq!(t.try_into_timestamp(), Err(Error::Conversion));
}

#[test]
fn cp56_from_local_time() {
    assert_eq!(
        CP56Time2a::from_local_time(noon(), 3600),
        Ok(CP56Time2a {
            ms: 56789,
            iv: false,
            min: 34,
            su: true,
            hour: 12,
            dow: DayOfWeek::Monday,
            day: 1,
            month: 7,
            year: 24,
        })
    );
    assert!(!CP56Time2a::from_local_time(noon(), 7200).unwrap().su);
}

#[test]
fn local_time_is_held_within_the_minute() {
    let leap = LocalTime { second: 59, nanosecond: 1_500_000_000, ..noon() };
    assert_eq!(leap.ms(), 59_999);
    assert_eq!(noon().ms(), 56_789);
    assert_eq!(LocalTime { minute: 75, ..noon() }.min(), 59);
    assert_eq!(noon().min(), 34);
    assert_eq!(LocalTime { hour: 30, ..noon() }.hour(), 23);
    assert_eq!(noon().hour(), 12);
    assert_eq!(CP24Time2a::from_local_time(leap), CP24Time2a { ms: 59_999, min: 34, iv: false });
}

#[test]
fn cp56_from_local_time_failures() {
    assert_eq!(
        CP56Time2a::from_local_time(LocalTime { weekday: 256, ..noon() }, 0),
        Err(Error::Conversion)
    );
    assert_eq!(
        CP56Time2a::from_local_time(LocalTime { day: 300, ..noon() }, 0),
        Err(Error::Conversion)
    );
    assert_eq!(
        CP56Time2a::from_local_time(LocalTime { month: 1000, ..noon() }, 0),
        Err(Error::Conversion)
    );
    assert_eq!(
        CP56Time2a::from_local_time(LocalTime { year: -5, ..noon() }, 0),
        Err(Error::Conversion)
    );
    assert_eq!(CP56Time2a::from_local_time(LocalTime { year: -100, ..noon() }, 0).unwrap().year, 0);
    let t = CP56Time2a::from_local_time(LocalTime { year: 1999, ..noon() }, 0).unwrap();
    assert_eq!(t.year, 99);
    assert_eq!(
        CP56Time2a::from_local_time(LocalTime { weekday: 9, ..noon() }, 0).unwrap().dow,
        DayOfWeek::Sunday
    );
}

#[test]
fn year_fields() {
    assert_eq!(CP56Time2a::year_field(2024), Some(24));
    assert_eq!(CP56Time2a::year_field(0), Some(0));
    assert_eq!(CP56Time2a::year_field(-200), Some(0));
    assert_eq!(CP56Time2a::year_field(-1), None);
    assert_eq!(CP56Time2a::year_field(i32::MIN), None);
}

#[test]
fn clock_fields_of_time_tags() {
    let t = CP56Time2a {
        ms: 56789,
        min: 34,
        iv: false,
        hour: 12,
        day: 1,
        month: 7,
        year: 24,
        su: false,
        dow: DayOfWeek::Monday,
    };
    assert_eq!(
        t.clock_fields(),
        ClockFields {
            year: 2024,
            month: 7,
            day: 1,
            hour: 12,
            minute: 34,
            second: 56,
            nanosecond: 789_000_000,
        }
    );
    assert_eq!(
        CP24Time2a { ms: 1001, min: 2, iv: true }.clock_fields(),
        ClockFields {
            year: 0,
            month: 0,
            day: 0,
            hour: 0,
            minute: 2,
            second: 1,
            nanosecond: 1_000_000,
        }
    );
}

#[test]
fn timestamp_or_failure() {
    let t = Timestamp::from_millis(5);
    assert_eq!(CP24Time2a::timestamp_or_failure(Some(t)), Ok(t));
    assert_eq!(CP24Time2a::timestamp_or_failure(None), Err(Error::Conversion));
}
