use crate::wire::{flag, spec_flag};
use crate::Error;
use bma_ts::Timestamp;
use chrono::{Datelike, Local, Timelike};
use core::time::Duration;
use vstd::prelude::*;

verus! {

/// The whole milliseconds that a duration holds.
pub uninterp spec fn duration_millis(d: Duration) -> u128;

/// `Duration::as_millis` of std: the total number of whole milliseconds that the duration
/// holds. The contract only gives that number its name.
pub assume_specification[ Duration::as_millis ](d: &Duration) -> (r: u128)
    ensures
        r == duration_millis(*d),
;

/// The duration of a number of milliseconds.
pub uninterp spec fn duration_of_millis(millis: u64) -> Duration;

/// `Duration::from_millis` of std: the duration of the given number of milliseconds, which
/// therefore holds that many whole milliseconds. The contract gives the duration its name and
/// says how many milliseconds it holds.
pub assume_specification[ Duration::from_millis ](millis: u64) -> (r: Duration)
    ensures
        r == duration_of_millis(millis),
        duration_millis(r) == millis,
;

/// The number that two bytes spell in little-endian order.
pub open spec fn spec_u16_le(b0: u8, b1: u8) -> u16 {
    (b0 as u16) | ((b1 as u16) << 8)
}

/// The low byte of a 16-bit number.
pub open spec fn spec_u16_low(v: u16) -> u8 {
    (v & 0xff) as u8
}

/// The high byte of a 16-bit number.
pub open spec fn spec_u16_high(v: u16) -> u8 {
    (v >> 8) as u8
}

proof fn lemma_u16_bits(v: u16, b0: u8, b1: u8)
    by (bit_vector)
    ensures
        ((((v & 0xff) as u8) as u16) | ((((v >> 8) as u8) as u16) << 8)) == v,
        ((((b0 as u16) | ((b1 as u16) << 8)) & 0xff) as u8) == b0,
        ((((b0 as u16) | ((b1 as u16) << 8)) >> 8) as u8) == b1,
{
}

/// A 16-bit number and its two little-endian bytes determine each other.
pub proof fn lemma_u16_le_round_trip(v: u16, b0: u8, b1: u8)
    ensures
        spec_u16_le(spec_u16_low(v), spec_u16_high(v)) == v,
        spec_u16_low(spec_u16_le(b0, b1)) == b0,
        spec_u16_high(spec_u16_le(b0, b1)) == b1,
{
    lemma_u16_bits(v, b0, b1);
}

/// CP16Time2a time type
#[derive(Debug, Copy, Clone, Eq, PartialEq, Default, Structural)]
pub struct CP16Time2a {
    /// Milliseconds (0-59999)
    pub ms: u16,
}

impl CP16Time2a {
    /// The duration of as many milliseconds as the time holds.
    pub fn to_duration(self) -> (r: Duration)
        ensures
            r == duration_of_millis(self.ms as u64),
            duration_millis(r) == self.ms,
    {
        Duration::from_millis(self.ms as u64)
    }
}

impl From<CP16Time2a> for Duration {
    fn from(value: CP16Time2a) -> (r: Duration) {
        value.to_duration()
    }
}

impl vstd::std_specs::convert::FromSpecImpl<CP16Time2a> for Duration {
    open spec fn obeys_from_spec() -> bool {
        true
    }

    /// The duration of as many milliseconds as the time holds.
    open spec fn from_spec(value: CP16Time2a) -> Self {
        duration_of_millis(value.ms as u64)
    }
}

impl TryFrom<Duration> for CP16Time2a {
    type Error = Error;

    fn try_from(value: Duration) -> (r: Result<Self, Error>) {
        let ms: u128 = value.as_millis();
        if ms > 59999 {
            return Err(Error::Overflow);
        }
        Ok(CP16Time2a { ms: ms as u16 })
    }
}

impl vstd::std_specs::convert::TryFromSpecImpl<Duration> for CP16Time2a {
    open spec fn obeys_try_from_spec() -> bool {
        true
    }

    /// A duration of up to 59999 ms becomes that number of milliseconds; a longer one
    /// overflows.
    open spec fn try_from_spec(value: Duration) -> Result<Self, Error> {
        if duration_millis(value) > 59999 {
            Err(Error::Overflow)
        } else {
            Ok(CP16Time2a { ms: duration_millis(value) as u16 })
        }
    }
}

impl CP16Time2a {
    /// Two bytes: the milliseconds, little-endian.
    pub open spec fn spec_from_bytes(buf: [u8; 2]) -> CP16Time2a {
        CP16Time2a { ms: spec_u16_le(buf[0], buf[1]) }
    }
}

impl From<[u8; 2]> for CP16Time2a {
    fn from(buf: [u8; 2]) -> (r: Self) {
        CP16Time2a { ms: (buf[0] as u16) | ((buf[1] as u16) << 8) }
    }
}

impl vstd::std_specs::convert::FromSpecImpl<[u8; 2]> for CP16Time2a {
    open spec fn obeys_from_spec() -> bool {
        true
    }

    open spec fn from_spec(buf: [u8; 2]) -> Self {
        CP16Time2a::spec_from_bytes(buf)
    }
}

impl CP16Time2a {
    /// The bytes of this time on the wire.
    pub open spec fn spec_to_bytes(self) -> [u8; 2] {
        [spec_u16_low(self.ms), spec_u16_high(self.ms)]
    }
}

impl From<CP16Time2a> for [u8; 2] {
    fn from(data: CP16Time2a) -> (r: [u8; 2]) {
        [(data.ms & 0xff) as u8, (data.ms >> 8) as u8]
    }
}

impl vstd::std_specs::convert::FromSpecImpl<CP16Time2a> for [u8; 2] {
    open spec fn obeys_from_spec() -> bool {
        true
    }

    open spec fn from_spec(data: CP16Time2a) -> Self {
        data.spec_to_bytes()
    }
}

/// CP24Time2a time type
#[derive(Debug, Copy, Clone, Eq, PartialEq, Default, Structural)]
pub struct CP24Time2a {
    /// Milliseconds (0-59999)
    pub ms: u16,
    /// Minutes (0-59)
    pub min: u8,
    /// Invalid flag
    pub iv: bool,
}

impl CP24Time2a {
    /// The duration of the minutes and milliseconds that the time holds.
    pub fn to_duration(self) -> (r: Duration)
        ensures
            r == duration_of_millis((self.min * 60_000 + self.ms) as u64),
            duration_millis(r) == self.min * 60_000 + self.ms,
    {
        Duration::from_millis(self.min as u64 * 60_000 + self.ms as u64)
    }
}

impl From<CP24Time2a> for Duration {
    fn from(value: CP24Time2a) -> (r: Duration) {
        value.to_duration()
    }
}

impl vstd::std_specs::convert::FromSpecImpl<CP24Time2a> for Duration {
    open spec fn obeys_from_spec() -> bool {
        true
    }

    /// The duration of the minutes and milliseconds that the time holds.
    open spec fn from_spec(value: CP24Time2a) -> Self {
        duration_of_millis((value.min * 60_000 + value.ms) as u64)
    }
}

impl TryFrom<Duration> for CP24Time2a {
    type Error = Error;

    fn try_from(value: Duration) -> (r: Result<Self, Error>) {
        let ms: u128 = value.as_millis();
        if ms >= 60 * 60000 {
            return Err(Error::Overflow);
        }
        Ok(CP24Time2a { ms: (ms % (60 * 1000)) as u16, min: (ms / (60 * 1000)) as u8, iv: false })
    }
}

impl vstd::std_specs::convert::TryFromSpecImpl<Duration> for CP24Time2a {
    open spec fn obeys_try_from_spec() -> bool {
        true
    }

    /// A duration of less than an hour becomes its whole minutes and the milliseconds left
    /// over, marked valid; a longer one overflows.
    open spec fn try_from_spec(value: Duration) -> Result<Self, Error> {
        if duration_millis(value) >= 3_600_000 {
            Err(Error::Overflow)
        } else {
            Ok(
                CP24Time2a {
                    ms: (duration_millis(value) % 60_000) as u16,
                    min: (duration_millis(value) / 60_000) as u8,
                    iv: false,
                },
            )
        }
    }
}

impl CP24Time2a {
    /// Three bytes: the milliseconds, little-endian, then a byte with the minutes in bits 0
    /// to 5 and the invalid flag in bit 7.
    pub open spec fn spec_from_bytes(buf: [u8; 3]) -> CP24Time2a {
        CP24Time2a {
            ms: spec_u16_le(buf[0], buf[1]),
            min: buf[2] & 0x3f,
            iv: buf[2] & 0x80 != 0,
        }
    }
}

impl From<[u8; 3]> for CP24Time2a {
    fn from(buf: [u8; 3]) -> (r: Self) {
        CP24Time2a {
            ms: (buf[0] as u16) | ((buf[1] as u16) << 8),
            min: buf[2] & 0b0011_1111,
            iv: buf[2] & 0b1000_0000 != 0,
        }
    }
}

impl vstd::std_specs::convert::FromSpecImpl<[u8; 3]> for CP24Time2a {
    open spec fn obeys_from_spec() -> bool {
        true
    }

    open spec fn from_spec(buf: [u8; 3]) -> Self {
        CP24Time2a::spec_from_bytes(buf)
    }
}

impl CP24Time2a {
    /// The bytes of this time on the wire.
    pub open spec fn spec_to_bytes(self) -> [u8; 3] {
        [spec_u16_low(self.ms), spec_u16_high(self.ms), self.min | spec_flag(self.iv, 0x80)]
    }
}

impl From<CP24Time2a> for [u8; 3] {
    fn from(data: CP24Time2a) -> (r: [u8; 3]) {
        [(data.ms & 0xff) as u8, (data.ms >> 8) as u8, data.min | flag(data.iv, 0b1000_0000)]
    }
}

impl vstd::std_specs::convert::FromSpecImpl<CP24Time2a> for [u8; 3] {
    open spec fn obeys_from_spec() -> bool {
        true
    }

    open spec fn from_spec(data: CP24Time2a) -> Self {
        data.spec_to_bytes()
    }
}

/// Day of week
#[derive(Debug, Copy, Clone, Eq, PartialEq, Default, Structural)]
pub enum DayOfWeek {
    /// Monday
    Monday,
    /// Tuesday
    Tuesday,
    /// Wednesday
    Wednesday,
    /// Thursday
    Thursday,
    /// Friday
    Friday,
    /// Saturday
    Saturday,
    /// Sunday
    #[default]
    Sunday,
}

impl DayOfWeek {
    /// The number of each day: 1 for Monday to 7 for Sunday.
    pub open spec fn spec_code(self) -> u8 {
        match self {
            DayOfWeek::Monday => 1,
            DayOfWeek::Tuesday => 2,
            DayOfWeek::Wednesday => 3,
            DayOfWeek::Thursday => 4,
            DayOfWeek::Friday => 5,
            DayOfWeek::Saturday => 6,
            DayOfWeek::Sunday => 7,
        }
    }

    /// The number of this day: 1 for Monday to 7 for Sunday.
    pub fn code(self) -> (r: u8)
        ensures
            r == self.spec_code(),
            1 <= r <= 7,
    {
        match self {
            DayOfWeek::Monday => 1,
            DayOfWeek::Tuesday => 2,
            DayOfWeek::Wednesday => 3,
            DayOfWeek::Thursday => 4,
            DayOfWeek::Friday => 5,
            DayOfWeek::Saturday => 6,
            DayOfWeek::Sunday => 7,
        }
    }
}

impl DayOfWeek {
    /// 1 to 6 name Monday to Saturday; every other number names Sunday.
    pub open spec fn spec_from_u8(value: u8) -> DayOfWeek {
        match value {
            1 => DayOfWeek::Monday,
            2 => DayOfWeek::Tuesday,
            3 => DayOfWeek::Wednesday,
            4 => DayOfWeek::Thursday,
            5 => DayOfWeek::Friday,
            6 => DayOfWeek::Saturday,
            _ => DayOfWeek::Sunday,
        }
    }
}

impl From<u8> for DayOfWeek {
    fn from(value: u8) -> (r: Self) {
        match value {
            1 => DayOfWeek::Monday,
            2 => DayOfWeek::Tuesday,
            3 => DayOfWeek::Wednesday,
            4 => DayOfWeek::Thursday,
            5 => DayOfWeek::Friday,
            6 => DayOfWeek::Saturday,
            _ => DayOfWeek::Sunday,
        }
    }
}

impl vstd::std_specs::convert::FromSpecImpl<u8> for DayOfWeek {
    open spec fn obeys_from_spec() -> bool {
        true
    }

    open spec fn from_spec(value: u8) -> Self {
        DayOfWeek::spec_from_u8(value)
    }
}

/// CP56Time2a time type
#[derive(Debug, Copy, Clone, Eq, PartialEq, Default, Structural)]
pub struct CP56Time2a {
    /// Milliseconds (0-59999)
    pub ms: u16,
    /// Invalid flag
    pub iv: bool,
    /// Minutes (0-59)
    pub min: u8,
    /// Summer time flag
    pub su: bool,
    /// Hours (0-23)
    pub hour: u8,
    /// Day of week
    pub dow: DayOfWeek,
    /// Day of month (1-31)
    pub day: u8,
    /// Month (1-12)
    pub month: u8,
    /// Year (0-99)
    pub year: u8,
}

impl CP56Time2a {
    /// Seven bytes: the milliseconds, little-endian; the minutes in bits 0 to 5 with the
    /// invalid flag in bit 7; the hour in bits 0 to 4 with the summer-time flag in bit 7; the
    /// day of the month in bits 0 to 4 with the day of the week in bits 5 to 7; the month in
    /// bits 0 to 3; the year in bits 0 to 5.
    pub open spec fn spec_from_bytes(buf: [u8; 7]) -> CP56Time2a {
        CP56Time2a {
            ms: spec_u16_le(buf[0], buf[1]),
            iv: buf[2] & 0x80 != 0,
            min: buf[2] & 0x3f,
            su: buf[3] & 0x80 != 0,
            hour: buf[3] & 0x1f,
            dow: DayOfWeek::spec_from_u8((buf[4] & 0xe0) >> 5),
            day: buf[4] & 0x1f,
            month: buf[5] & 0x0f,
            year: buf[6] & 0x3f,
        }
    }
}

impl From<[u8; 7]> for CP56Time2a {
    fn from(buf: [u8; 7]) -> (r: Self) {
        CP56Time2a {
            ms: (buf[0] as u16) | ((buf[1] as u16) << 8),
            iv: buf[2] & 0b1000_0000 != 0,
            min: buf[2] & 0b0011_1111,
            su: buf[3] & 0b1000_0000 != 0,
            hour: buf[3] & 0b0001_1111,
            dow: DayOfWeek::from((buf[4] & 0b1110_0000) >> 5),
            day: buf[4] & 0b0001_1111,
            month: buf[5] & 0b0000_1111,
            year: buf[6] & 0b0011_1111,
        }
    }
}

impl vstd::std_specs::convert::FromSpecImpl<[u8; 7]> for CP56Time2a {
    open spec fn obeys_from_spec() -> bool {
        true
    }

    open spec fn from_spec(buf: [u8; 7]) -> Self {
        CP56Time2a::spec_from_bytes(buf)
    }
}

impl CP56Time2a {
    /// The bytes of this time on the wire.
    pub open spec fn spec_to_bytes(self) -> [u8; 7] {
        [
            spec_u16_low(self.ms),
            spec_u16_high(self.ms),
            self.min | spec_flag(self.iv, 0x80),
            self.hour | spec_flag(self.su, 0x80),
            (self.dow.spec_code() << 5) | self.day,
            self.month,
            self.year,
        ]
    }
}

impl From<CP56Time2a> for [u8; 7] {
    fn from(data: CP56Time2a) -> (r: [u8; 7]) {
        [
            (data.ms & 0xff) as u8,
            (data.ms >> 8) as u8,
            data.min | flag(data.iv, 0b1000_0000),
            data.hour | flag(data.su, 0b1000_0000),
            (data.dow.code() << 5) | data.day,
            data.month,
            data.year,
        ]
    }
}

impl vstd::std_specs::convert::FromSpecImpl<CP56Time2a> for [u8; 7] {
    open spec fn obeys_from_spec() -> bool {
        true
    }

    open spec fn from_spec(data: CP56Time2a) -> Self {
        data.spec_to_bytes()
    }
}

/// A timestamp of the `bma_ts` crate: a moment as a span since the Unix epoch. Nothing is
/// known of what it holds.
#[verifier::external_type_specification]
#[verifier::external_body]
pub struct ExTimestamp(Timestamp);

/// A moment as the local calendar and clock show it.
#[derive(Debug, Copy, Clone, PartialEq, Eq, Structural)]
pub struct LocalTime {
    /// Calendar year
    pub year: i32,
    /// Month, 1 to 12
    pub month: u32,
    /// Day of the month, 1 to 31
    pub day: u32,
    /// Day of the week, 1 for Monday to 7 for Sunday
    pub weekday: u32,
    /// Hour, 0 to 23
    pub hour: u32,
    /// Minute, 0 to 59
    pub minute: u32,
    /// Second, 0 to 59
    pub second: u32,
    /// Nanoseconds since the whole second; 1,000,000,000 and more during a leap second
    pub nanosecond: u32,
    /// Seconds that local time is ahead of UTC at that moment
    pub offset: i32,
}

impl LocalTime {
    /// Every field is in the range that a calendar and a clock give it.
    pub open spec fn in_range(self) -> bool {
        &&& 1 <= self.month <= 12
        &&& 1 <= self.day <= 31
        &&& 1 <= self.weekday <= 7
        &&& self.hour <= 23
        &&& self.minute <= 59
        &&& self.second <= 59
        &&& self.nanosecond <= 1_999_999_999
    }

    /// The milliseconds within the minute, held at 59999 during a leap second.
    pub open spec fn spec_ms(self) -> u16 {
        let ms = self.nanosecond / 1_000_000 + self.second * 1000;
        if ms > 59_999 {
            59_999
        } else {
            ms as u16
        }
    }

    /// The minute, held at 59.
    pub open spec fn spec_min(self) -> u8 {
        if self.minute > 59 {
            59
        } else {
            self.minute as u8
        }
    }

    /// The hour, held at 23.
    pub open spec fn spec_hour(self) -> u8 {
        if self.hour > 23 {
            23
        } else {
            self.hour as u8
        }
    }

    /// The milliseconds within the minute, held at 59999 during a leap second.
    pub fn ms(&self) -> (r: u16)
        ensures
            r == self.spec_ms(),
    {
        let ms: u64 = (self.nanosecond / 1_000_000) as u64 + self.second as u64 * 1000;
        if ms > 59_999 {
            59_999
        } else {
            ms as u16
        }
    }

    /// The minute, held at 59.
    pub fn min(&self) -> (r: u8)
        ensures
            r == self.spec_min(),
    {
        if self.minute > 59 {
            59
        } else {
            self.minute as u8
        }
    }

    /// The hour, held at 23.
    pub fn hour(&self) -> (r: u8)
        ensures
            r == self.spec_hour(),
    {
        if self.hour > 23 {
            23
        } else {
            self.hour as u8
        }
    }
}

/// What a clock is set to: the fields of a date and a time of day.
#[derive(Debug, Copy, Clone, PartialEq, Eq, Structural)]
pub struct ClockFields {
    /// Calendar year
    pub year: i32,
    /// Month
    pub month: u32,
    /// Day of the month
    pub day: u32,
    /// Hour
    pub hour: u32,
    /// Minute
    pub minute: u32,
    /// Second
    pub second: u32,
    /// Nanoseconds since the whole second
    pub nanosecond: u32,
}

/// `Timestamp::try_into_datetime_local` of `bma_ts`, then the accessors of chrono's `Datelike`
/// and `Timelike` on the local date and time: what the calendar and clock of this machine's
/// time zone show at the timestamp's moment, `None` where the timestamp has no date. Each
/// field is in the range that chrono documents for its accessor; which date and time it is
/// depends on the time zone and is not stated.
#[verifier::external_body]
fn local_time(timestamp: Timestamp) -> (r: Option<LocalTime>)
    ensures
        r matches Some(t) ==> t.in_range(),
{
    let t = timestamp.try_into_datetime_local().ok()?;
    Some(
        LocalTime {
            year: t.year(),
            month: t.month(),
            day: t.day(),
            weekday: t.weekday().number_from_monday(),
            hour: t.hour(),
            minute: t.minute(),
            second: t.second(),
            nanosecond: t.nanosecond(),
            offset: t.offset().local_minus_utc(),
        },
    )
}

/// `with_month(1)` and `with_day(1)` of chrono on the timestamp's local date and time, then the
/// offset there: the seconds that local time is ahead of UTC on 1 January of the timestamp's
/// year at its time of day, `None` where chrono has no such moment. Nothing is stated of the
/// number: it depends on the time zone.
#[verifier::external_body]
fn standard_offset(timestamp: Timestamp) -> (r: Option<i32>) {
    let t = timestamp.try_into_datetime_local().ok()?;
    Some(t.with_month(1)?.with_day(1)?.offset().local_minus_utc())
}

/// `Local::now` of chrono with minute, second and nanosecond replaced, in that order, then
/// `Timestamp::try_from` of `bma_ts`: the present hour's moment with those fields, `None` where
/// chrono refuses one of them. Nothing is stated of the timestamp: it depends on the clock.
#[verifier::external_body]
fn timestamp_this_hour(minute: u32, second: u32, nanosecond: u32) -> (r: Option<Timestamp>) {
    let t = Local::now().with_minute(minute)?.with_second(second)?.with_nanosecond(nanosecond)?;
    Timestamp::try_from(t).ok()
}

/// `Local::now` of chrono with minute, second, nanosecond, hour, day, month and year replaced,
/// in that order, then `Timestamp::try_from` of `bma_ts`: the local moment with those fields,
/// `None` where chrono refuses one of them on the way. Nothing is stated of the timestamp: it
/// depends on the clock and the time zone.
#[verifier::external_body]
fn timestamp_at(f: ClockFields) -> (r: Option<Timestamp>) {
    let t = Local::now().with_minute(f.minute)?.with_second(f.second)?;
    let t = t.with_nanosecond(f.nanosecond)?.with_hour(f.hour)?.with_day(f.day)?;
    Timestamp::try_from(t.with_month(f.month)?.with_year(f.year)?).ok()
}

impl CP24Time2a {
    /// The time tag of a local time: its milliseconds and minute, marked valid.
    pub open spec fn spec_from_local_time(t: LocalTime) -> CP24Time2a {
        CP24Time2a { ms: t.spec_ms(), min: t.spec_min(), iv: false }
    }

    /// The time tag of a local time: its milliseconds and minute, marked valid.
    pub fn from_local_time(t: LocalTime) -> (r: Self)
        ensures
            r == CP24Time2a::spec_from_local_time(t),
    {
        CP24Time2a { ms: t.ms(), min: t.min(), iv: false }
    }

    /// What a clock is set to for this time tag: minute, whole seconds and the nanoseconds of
    /// the milliseconds left over. The date and the hour are not the tag's to give (zero here).
    pub open spec fn spec_clock_fields(self) -> ClockFields {
        ClockFields {
            year: 0,
            month: 0,
            day: 0,
            hour: 0,
            minute: self.min as u32,
            second: (self.ms / 1000) as u32,
            nanosecond: ((self.ms % 1000) * 1_000_000) as u32,
        }
    }

    /// What a clock is set to for this time tag.
    pub fn clock_fields(&self) -> (r: ClockFields)
        ensures
            r == self.spec_clock_fields(),
    {
        ClockFields {
            year: 0,
            month: 0,
            day: 0,
            hour: 0,
            minute: self.min as u32,
            second: (self.ms / 1000) as u32,
            nanosecond: (self.ms % 1000) as u32 * 1_000_000,
        }
    }

    /// The time tag of a timestamp's moment in this machine's time zone; a timestamp without a
    /// local date is refused as a conversion failure.
    pub fn try_from_timestamp(value: Timestamp) -> (r: Result<Self, Error>)
        ensures
            match r {
                Ok(c) => exists|t: LocalTime|
                    t.in_range() && c == #[trigger] CP24Time2a::spec_from_local_time(t),
                Err(e) => e == Error::Conversion,
            },
    {
        match local_time(value) {
            Some(t) => Ok(CP24Time2a::from_local_time(t)),
            None => Err(Error::Conversion),
        }
    }

    /// The timestamp of the moment in the present hour that has this tag's minute, second and
    /// millisecond; a failure to make one is a conversion failure.
    pub fn try_into_timestamp(self) -> (r: Result<Timestamp, Error>)
        ensures
            r matches Err(e) ==> e == Error::Conversion,
    {
        let f: ClockFields = self.clock_fields();
        Self::timestamp_or_failure(timestamp_this_hour(f.minute, f.second, f.nanosecond))
    }

    /// The timestamp that was made, or a conversion failure where none was.
    pub fn timestamp_or_failure(made: Option<Timestamp>) -> (r: Result<Timestamp, Error>)
        ensures
            r == (match made {
                Some(t) => Ok::<Timestamp, Error>(t),
                None => Err::<Timestamp, Error>(Error::Conversion),
            }),
    {
        match made {
            Some(t) => Ok(t),
            None => Err(Error::Conversion),
        }
    }
}

impl CP56Time2a {
    /// The two-digit year of a calendar year: its remainder by 100, which a year before the
    /// year zero has only where it is a multiple of 100.
    pub open spec fn spec_year_field(year: i32) -> Option<u8> {
        if year >= 0 {
            Some((year % 100) as u8)
        } else if (-year) % 100 == 0 {
            Some(0u8)
        } else {
            None
        }
    }

    /// The time tag of a local time. Milliseconds, minute and hour are held at their largest
    /// values; the summer-time flag is set where the offset differs from the standard one; the
    /// tag is marked valid. A weekday, day or month above 255, or a year without a two-digit
    /// form, is a conversion failure.
    pub open spec fn spec_from_local_time(t: LocalTime, standard_offset: i32) -> Result<
        CP56Time2a,
        Error,
    > {
        if t.weekday > 255 || t.day > 255 || t.month > 255 || CP56Time2a::spec_year_field(t.year)
            is None {
            Err(Error::Conversion)
        } else {
            Ok(
                CP56Time2a {
                    ms: t.spec_ms(),
                    iv: false,
                    min: t.spec_min(),
                    su: t.offset != standard_offset,
                    hour: t.spec_hour(),
                    dow: DayOfWeek::spec_from_u8(t.weekday as u8),
                    day: t.day as u8,
                    month: t.month as u8,
                    year: CP56Time2a::spec_year_field(t.year)->Some_0,
                },
            )
        }
    }

    /// The two-digit year of a calendar year.
    pub fn year_field(year: i32) -> (r: Option<u8>)
        ensures
            r == CP56Time2a::spec_year_field(year),
    {
        if year >= 0 {
            Some((year % 100) as u8)
        } else if (-(year as i64)) % 100 == 0 {
            Some(0)
        } else {
            None
        }
    }

    /// The time tag of a local time, given the offset that is standard for its year.
    pub fn from_local_time(t: LocalTime, standard_offset: i32) -> (r: Result<Self, Error>)
        ensures
            r == CP56Time2a::spec_from_local_time(t, standard_offset),
    {
        if t.weekday > 255 || t.day > 255 || t.month > 255 {
            return Err(Error::Conversion);
        }
        let year: u8 = match Self::year_field(t.year) {
            Some(y) => y,
            None => {
                return Err(Error::Conversion);
            },
        };
        Ok(
            CP56Time2a {
                ms: t.ms(),
                iv: false,
                min: t.min(),
                su: t.offset != standard_offset,
                hour: t.hour(),
                dow: DayOfWeek::from(t.weekday as u8),
                day: t.day as u8,
                month: t.month as u8,
                year,
            },
        )
    }

    /// What a clock is set to for this time tag: the year counted from 2000, month, day, hour,
    /// minute, whole seconds and the nanoseconds of the milliseconds left over.
    pub open spec fn spec_clock_fields(self) -> ClockFields {
        ClockFields {
            year: (2000 + self.year) as i32,
            month: self.month as u32,
            day: self.day as u32,
            hour: self.hour as u32,
            minute: self.min as u32,
            second: (self.ms / 1000) as u32,
            nanosecond: ((self.ms % 1000) * 1_000_000) as u32,
        }
    }

    /// What a clock is set to for this time tag.
    pub fn clock_fields(&self) -> (r: ClockFields)
        ensures
            r == self.spec_clock_fields(),
    {
        ClockFields {
            year: 2000 + self.year as i32,
            month: self.month as u32,
            day: self.day as u32,
            hour: self.hour as u32,
            minute: self.min as u32,
            second: (self.ms / 1000) as u32,
            nanosecond: (self.ms % 1000) as u32 * 1_000_000,
        }
    }

    /// The time tag of a timestamp's moment in this machine's time zone. A timestamp without
    /// a local date, or without a first of January to compare its offset with, is refused as
    /// a conversion failure.
    pub fn try_from_timestamp(value: Timestamp) -> (r: Result<Self, Error>)
        ensures
            match r {
                Ok(c) => exists|t: LocalTime, offset: i32|
                    t.in_range() && Ok::<CP56Time2a, Error>(c)
                        == #[trigger] CP56Time2a::spec_from_local_time(t, offset),
                Err(e) => e == Error::Conversion,
            },
    {
        let t: LocalTime = match local_time(value) {
            Some(t) => t,
            None => {
                return Err(Error::Conversion);
            },
        };
        let offset: i32 = match standard_offset(value) {
            Some(o) => o,
            None => {
                return Err(Error::Conversion);
            },
        };
        Self::from_local_time(t, offset)
    }

    /// The timestamp of the local moment that this tag names, in a year counted from 2000; a
    /// failure to make one is a conversion failure.
    pub fn try_into_timestamp(self) -> (r: Result<Timestamp, Error>)
        ensures
            r matches Err(e) ==> e == Error::Conversion,
    {
        CP24Time2a::timestamp_or_failure(timestamp_at(self.clock_fields()))
    }
}

/// Whether every field of a CP24Time2a fits in its bits: the minutes in six.
pub open spec fn spec_cp24_in_range(t: CP24Time2a) -> bool {
    t.min < 64
}

/// Whether every field of a CP56Time2a fits in its bits: the minutes in six, the hour in
/// five, the day in five, the month in four, the year in six.
pub open spec fn spec_cp56_in_range(t: CP56Time2a) -> bool {
    t.min < 64 && t.hour < 32 && t.day < 32 && t.month < 16 && t.year < 64
}

proof fn lemma_low_bits_and_flag(v: u8, b: bool)
    by (bit_vector)
    ensures
        v < 64 ==> ((v | (if b { 0x80u8 } else { 0u8 })) & 0x3f) == v,
        v < 32 ==> ((v | (if b { 0x80u8 } else { 0u8 })) & 0x1f) == v,
        v < 64 ==> (((v | (if b { 0x80u8 } else { 0u8 })) & 0x80) != 0) == b,
        v < 16 ==> (v & 0x0f) == v,
        v < 64 ==> (v & 0x3f) == v,
{
}

proof fn lemma_day_bits(dow: u8, day: u8)
    by (bit_vector)
    requires
        1 <= dow <= 7,
        day < 32,
    ensures
        ((((dow << 5) | day) & 0xe0) >> 5) == dow,
        (((dow << 5) | day) & 0x1f) == day,
{
}

/// A CP16Time2a is read back from its two bytes.
pub proof fn lemma_cp16_round_trip(t: CP16Time2a)
    ensures
        CP16Time2a::spec_from_bytes(t.spec_to_bytes()) == t,
{
    lemma_u16_le_round_trip(t.ms, 0, 0);
}

/// A CP24Time2a whose minutes fit in six bits is read back from its three bytes.
pub proof fn lemma_cp24_round_trip(t: CP24Time2a)
    requires
        spec_cp24_in_range(t),
    ensures
        CP24Time2a::spec_from_bytes(t.spec_to_bytes()) == t,
{
    lemma_u16_le_round_trip(t.ms, 0, 0);
    lemma_low_bits_and_flag(t.min, t.iv);
}

/// A CP56Time2a whose fields fit in their bits is read back from its seven bytes.
pub proof fn lemma_cp56_round_trip(t: CP56Time2a)
    requires
        spec_cp56_in_range(t),
    ensures
        CP56Time2a::spec_from_bytes(t.spec_to_bytes()) == t,
{
    lemma_u16_le_round_trip(t.ms, 0, 0);
    lemma_low_bits_and_flag(t.min, t.iv);
    lemma_low_bits_and_flag(t.hour, t.su);
    lemma_low_bits_and_flag(t.month, false);
    lemma_low_bits_and_flag(t.year, false);
    lemma_day_bits(t.dow.spec_code(), t.day);
}

} // verus!
