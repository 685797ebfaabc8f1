use iec60870::types::time::{CP16Time2a, CP24Time2a, CP56Time2a, DayOfWeek};
use iec60870::Error;
use std::time::Duration;

#[test]
fn test_cp16time2a_from_duration() {
    let duration = Duration::from_millis(12345);
    let cp16time2a = CP16Time2a::try_from(duration).unwrap();
    assert_eq!(cp16time2a.ms, 12345);
}

#[test]
fn test_duration_from_cp16time2a() {
    let cp16time2a = CP16Time2a { ms: 12345 };
    let duration: Duration = cp16time2a.into();
    assert_eq!(duration.as_millis(), 12345);
}

#[test]
fn test_cp24time2a_from_duration() {
    let duration = Duration::from_millis(1_234_567);
    let cp24time2a = CP24Time2a::try_from(duration).unwrap();
    assert_eq!(cp24time2a.ms, 34567);
    assert_eq!(cp24time2a.min, 20);
    assert!(!cp24time2a.iv);
}

#[test]
fn test_duration_from_cp24time2a() {
    let cp24time2a = CP24Time2a {
        ms: 34567,
        min: 20,
        iv: false,
    };
    let duration: Duration = cp24time2a.into();
    assert_eq!(duration.as_millis(), 1_234_567);
}

#[test]
fn test_cp16time2a_from_bytes() {
    let bytes: [u8; 2] = [0x39, 0x30];
    let cp16time2a: CP16Time2a = bytes.into();
    assert_eq!(cp16time2a.ms, 12345);
}

#[test]
fn test_bytes_from_cp16time2a() {
    let cp16time2a = CP16Time2a { ms: 12345 };
    let bytes: [u8; 2] = cp16time2a.into();
    assert_eq!(bytes, [0x39, 0x30]);
}

#[test]
fn test_cp24time2a_from_bytes() {
    let bytes: [u8; 3] = [0x07, 0x87, 0x14];
    let cp24time2a: CP24Time2a = bytes.into();
    assert_eq!(cp24time2a.ms, 34567);
    assert_eq!(cp24time2a.min, 20);
    assert!(!cp24time2a.iv);
}

#[test]
fn test_bytes_from_cp24time2a() {
    let cp24time2a = CP24Time2a {
        ms: 34567,
        min: 20,
        iv: false,
    };
    let bytes: [u8; 3] = cp24time2a.into();
    assert_eq!(bytes, [0x07, 0x87, 0x14]);
}

#[test]
fn test_cp56time2a_from_bytes() {
    let bytes: [u8; 7] = [0xD5, 0xDD, 0x22, 0x92, 0b0101_1110, 0x07, 0x18];
    let cp56time2a: CP56Time2a = bytes.into();
    assert_eq!(cp56time2a.ms, 56789);
    assert_eq!(cp56time2a.min, 34);
    assert_eq!(cp56time2a.hour, 18);
    assert_eq!(cp56time2a.day, 30);
    assert_eq!(cp56time2a.month, 7);
    assert_eq!(cp56time2a.year, 24);
    assert_eq!(cp56time2a.dow, 2.into());
    assert!(!cp56time2a.iv);
    assert!(cp56time2a.su);
}

#[test]
fn test_bytes_from_cp56time2a() {
    let cp56time2a = CP56Time2a {
        ms: 56789,
        min: 34,
        iv: false,
        hour: 18,
        day: 30,
        month: 7,
        year: 24,
        su: true,
        dow: 2.into(),
    };
    let bytes: [u8; 7] = cp56time2a.into();
    assert_eq!(bytes, [0xD5, 0xDD, 0x22, 0x92, 0b0101_1110, 0x07, 0x18]);
}

#[test]
fn cp16_refuses_a_minute_or_more() {
    assert_eq!(CP16Time2a::try_from(Duration::from_millis(59_999)), Ok(CP16Time2a { ms: 59_999 }));
    assert_eq!(CP16Time2a::try_from(Duration::from_millis(60_000)), Err(Error::Overflow));
}

#[test]
fn cp24_refuses_an_hour_or_more() {
    assert_eq!(
        CP24Time2a::try_from(Duration::from_millis(3_599_999)),
        Ok(CP24Time2a { ms: 59_999, min: 59, iv: false })
    );
    assert_eq!(CP24Time2a::try_from(Duration::from_millis(3_600_000)), Err(Error::Overflow));
}

#[test]
fn cp24_invalid_flag_is_bit_seven() {
    let t: CP24Time2a = [0x00, 0x00, 0x85].into();
    assert_eq!(t, CP24Time2a { ms: 0, min: 5, iv: true });
    let bytes: [u8; 3] = t.into();
    assert_eq!(bytes, [0x00, 0x00, 0x85]);
}

#[test]
fn cp24_round_trips_from_bytes_and_back() {
    let bytes: [u8; 3] = [0x07, 0x87, 0x14];
    let t: CP24Time2a = bytes.into();
    let again: [u8; 3] = t.into();
    assert_eq!(again, bytes);
}

#[test]
fn cp56_round_trips_from_bytes_and_back() {
    let bytes: [u8; 7] = [0xD5, 0xDD, 0x22, 0x92, 0b0101_1110, 0x07, 0x18];
    let t: CP56Time2a = bytes.into();
    assert_eq!(t.dow, DayOfWeek::Tuesday);
    let again: [u8; 7] = t.into();
    assert_eq!(again, bytes);
}

#[test]
fn day_of_week_numbers() {
    assert_eq!(DayOfWeek::from(1), DayOfWeek::Monday);
    assert_eq!(DayOfWeek::from(6), DayOfWeek::Saturday);
    assert_eq!(DayOfWeek::from(7), DayOfWeek::Sunday);
    assert_eq!(DayOfWeek::from(0), DayOfWeek::Sunday);
    assert_eq!(DayOfWeek::Wednesday.code(), 3);
    assert_eq!(DayOfWeek::default(), DayOfWeek::Sunday);
}

#[test]
fn durations_of_time_tags() {
    assert_eq!(CP16Time2a { ms: 59_999 }.to_duration(), Duration::from_millis(59_999));
    assert_eq!(
        CP24Time2a { ms: 59_999, min: 255, iv: true }.to_duration(),
        Duration::from_millis(255 * 60_000 + 59_999)
    );
}
