use super::time::{
    lemma_cp16_round_trip, lemma_cp24_round_trip, lemma_cp56_round_trip, lemma_u16_le_round_trip,
    spec_cp24_in_range, spec_cp56_in_range, spec_u16_high, spec_u16_le, spec_u16_low, CP16Time2a,
    CP24Time2a, CP56Time2a,
};
use super::{DataBuffer, MAX_IEC_DATA_LEN};
use crate::wire::{flag, lemma_le_round_trip, spec_flag, spec_le_byte, spec_le_join};
use crate::Error;
use vstd::prelude::*;
use vstd::std_specs::convert::TryFromSpec;

verus! {

/// Single point information
#[derive(Debug, Copy, Clone, Eq, PartialEq, Default, Structural)]
pub enum SPI {
    /// Off
    #[default]
    Off,
    /// On
    On,
}

impl SPI {
    /// The value that each number names.
    pub open spec fn spec_from_u8(value: u8) -> SPI {
        match value {
            0 => SPI::Off,
            _ => SPI::On,
        }
    }

    /// The number of each value.
    pub open spec fn spec_to_u8(self) -> u8 {
        match self {
            SPI::Off => 0,
            SPI::On => 1,
        }
    }

    /// The number of this value.
    pub fn code(self) -> (r: u8)
        ensures
            r == self.spec_to_u8(),
    {
        match self {
            SPI::Off => 0,
            SPI::On => 1,
        }
    }

    /// Every value is read back from its number.
    pub proof fn lemma_round_trip(self)
        ensures
            SPI::spec_from_u8(self.spec_to_u8()) == self,
    {
    }

    /// `On` for true, `Off` for false.
    pub open spec fn spec_from_bool(value: bool) -> SPI {
        if value {
            SPI::On
        } else {
            SPI::Off
        }
    }

    /// Whether the value is `On`.
    pub open spec fn spec_to_bool(self) -> bool {
        self == SPI::On
    }
}

impl From<bool> for SPI {
    fn from(value: bool) -> (r: Self) {
        if value {
            SPI::On
        } else {
            SPI::Off
        }
    }
}

impl vstd::std_specs::convert::FromSpecImpl<bool> for SPI {
    open spec fn obeys_from_spec() -> bool {
        true
    }

    open spec fn from_spec(value: bool) -> Self {
        SPI::spec_from_bool(value)
    }
}

impl From<SPI> for bool {
    fn from(value: SPI) -> (r: bool) {
        match value {
            SPI::On => true,
            _ => false,
        }
    }
}

impl vstd::std_specs::convert::FromSpecImpl<SPI> for bool {
    open spec fn obeys_from_spec() -> bool {
        true
    }

    open spec fn from_spec(value: SPI) -> Self {
        value.spec_to_bool()
    }
}

impl From<u8> for SPI {
    fn from(value: u8) -> (r: Self) {
        match value {
            0 => SPI::Off,
            _ => SPI::On,
        }
    }
}

impl vstd::std_specs::convert::FromSpecImpl<u8> for SPI {
    open spec fn obeys_from_spec() -> bool {
        true
    }

    open spec fn from_spec(value: u8) -> Self {
        SPI::spec_from_u8(value)
    }
}

/// Double point information
#[derive(Debug, Copy, Clone, Eq, PartialEq, Default, Structural)]
pub enum DPI {
    /// Indeterminate 0
    #[default]
    Indeterminate0,
    /// Off
    Off,
    /// On
    On,
    /// Indeterminate 3
    Indeterminate3,
}

impl DPI {
    /// The value that each number names.
    pub open spec fn spec_from_u8(value: u8) -> DPI {
        match value {
            0 => DPI::Indeterminate0,
            1 => DPI::Off,
            2 => DPI::On,
            _ => DPI::Indeterminate3,
        }
    }

    /// The number of each value.
    pub open spec fn spec_to_u8(self) -> u8 {
        match self {
            DPI::Indeterminate0 => 0,
            DPI::Off => 1,
            DPI::On => 2,
            DPI::Indeterminate3 => 3,
        }
    }

    /// The number of this value.
    pub fn code(self) -> (r: u8)
        ensures
            r == self.spec_to_u8(),
    {
        match self {
            DPI::Indeterminate0 => 0,
            DPI::Off => 1,
            DPI::On => 2,
            DPI::Indeterminate3 => 3,
        }
    }

    /// Every value is read back from its number.
    pub proof fn lemma_round_trip(self)
        ensures
            DPI::spec_from_u8(self.spec_to_u8()) == self,
    {
    }

    /// `On` for true, `Off` for false.
    pub open spec fn spec_from_bool(value: bool) -> DPI {
        if value {
            DPI::On
        } else {
            DPI::Off
        }
    }

    /// Whether the value is `On`.
    pub open spec fn spec_to_bool(self) -> bool {
        self == DPI::On
    }
}

impl From<bool> for DPI {
    fn from(value: bool) -> (r: Self) {
        if value {
            DPI::On
        } else {
            DPI::Off
        }
    }
}

impl vstd::std_specs::convert::FromSpecImpl<bool> for DPI {
    open spec fn obeys_from_spec() -> bool {
        true
    }

    open spec fn from_spec(value: bool) -> Self {
        DPI::spec_from_bool(value)
    }
}

impl From<DPI> for bool {
    fn from(value: DPI) -> (r: bool) {
        match value {
            DPI::On => true,
            _ => false,
        }
    }
}

impl vstd::std_specs::convert::FromSpecImpl<DPI> for bool {
    open spec fn obeys_from_spec() -> bool {
        true
    }

    open spec fn from_spec(value: DPI) -> Self {
        value.spec_to_bool()
    }
}

impl From<u8> for DPI {
    fn from(value: u8) -> (r: Self) {
        match value {
            0 => DPI::Indeterminate0,
            1 => DPI::Off,
            2 => DPI::On,
            _ => DPI::Indeterminate3,
        }
    }
}

impl vstd::std_specs::convert::FromSpecImpl<u8> for DPI {
    open spec fn obeys_from_spec() -> bool {
        true
    }

    open spec fn from_spec(value: u8) -> Self {
        DPI::spec_from_u8(value)
    }
}

/// Event state (single event of protection equipment)
#[derive(Debug, Copy, Clone, Eq, PartialEq, Default, Structural)]
pub enum EventState {
    /// Indeterminate 0
    #[default]
    Indeterminate0,
    /// Off
    Off,
    /// On
    On,
    /// Indeterminate 3
    Indeterminate3,
}

impl EventState {
    /// The value that each number names.
    pub open spec fn spec_from_u8(value: u8) -> EventState {
        match value {
            0 => EventState::Indeterminate0,
            1 => EventState::Off,
            2 => EventState::On,
            _ => EventState::Indeterminate3,
        }
    }

    /// The number of each value.
    pub open spec fn spec_to_u8(self) -> u8 {
        match self {
            EventState::Indeterminate0 => 0,
            EventState::Off => 1,
            EventState::On => 2,
            EventState::Indeterminate3 => 3,
        }
    }

    /// The number of this value.
    pub fn code(self) -> (r: u8)
        ensures
            r == self.spec_to_u8(),
    {
        match self {
            EventState::Indeterminate0 => 0,
            EventState::Off => 1,
            EventState::On => 2,
            EventState::Indeterminate3 => 3,
        }
    }

    /// Every value is read back from its number.
    pub proof fn lemma_round_trip(self)
        ensures
            EventState::spec_from_u8(self.spec_to_u8()) == self,
    {
    }

    /// `On` for true, `Off` for false.
    pub open spec fn spec_from_bool(value: bool) -> EventState {
        if value {
            EventState::On
        } else {
            EventState::Off
        }
    }

    /// Whether the value is `On`.
    pub open spec fn spec_to_bool(self) -> bool {
        self == EventState::On
    }
}

impl From<bool> for EventState {
    fn from(value: bool) -> (r: Self) {
        if value {
            EventState::On
        } else {
            EventState::Off
        }
    }
}

impl vstd::std_specs::convert::FromSpecImpl<bool> for EventState {
    open spec fn obeys_from_spec() -> bool {
        true
    }

    open spec fn from_spec(value: bool) -> Self {
        EventState::spec_from_bool(value)
    }
}

impl From<EventState> for bool {
    fn from(value: EventState) -> (r: bool) {
        match value {
            EventState::On => true,
            _ => false,
        }
    }
}

impl vstd::std_specs::convert::FromSpecImpl<EventState> for bool {
    open spec fn obeys_from_spec() -> bool {
        true
    }

    open spec fn from_spec(value: EventState) -> Self {
        value.spec_to_bool()
    }
}

impl From<u8> for EventState {
    fn from(value: u8) -> (r: Self) {
        match value {
            0 => EventState::Indeterminate0,
            1 => EventState::Off,
            2 => EventState::On,
            _ => EventState::Indeterminate3,
        }
    }
}

impl vstd::std_specs::convert::FromSpecImpl<u8> for EventState {
    open spec fn obeys_from_spec() -> bool {
        true
    }

    open spec fn from_spec(value: u8) -> Self {
        EventState::spec_from_u8(value)
    }
}

/// Single point information with quality descriptor
#[derive(Debug, Copy, Clone, Eq, PartialEq, Default, Structural)]
pub struct SIQ {
    /// Invalid
    pub iv: bool,
    /// Not topical
    pub nt: bool,
    /// Substituted
    pub sb: bool,
    /// Blocked
    pub bl: bool,
    /// Single point information
    pub spi: SPI,
}

impl SIQ {
    /// Bits 7 to 4: invalid, not topical, substituted, blocked. Bit 0: the single point.
    pub open spec fn spec_from_u8(v: u8) -> SIQ {
        SIQ {
            iv: v & 0b1000_0000 != 0,
            nt: v & 0b0100_0000 != 0,
            sb: v & 0b0010_0000 != 0,
            bl: v & 0b0001_0000 != 0,
            spi: SPI::spec_from_u8(v & 0b0000_0001),
        }
    }

    /// The byte that holds this value.
    pub open spec fn spec_to_u8(self) -> u8 {
        spec_flag(self.iv, 0b1000_0000) | spec_flag(self.nt, 0b0100_0000)
            | spec_flag(self.sb, 0b0010_0000) | spec_flag(self.bl, 0b0001_0000)
            | self.spi.spec_to_u8()
    }

    proof fn lemma_bits(iv: bool, nt: bool, sb: bool, bl: bool, spi: u8)
        by (bit_vector)
        requires
            spi <= 1,
        ensures
            ({
                let v = spec_flag(iv, 0b1000_0000) | spec_flag(nt, 0b0100_0000)
                    | spec_flag(sb, 0b0010_0000) | spec_flag(bl, 0b0001_0000) | spi;
                &&& (v & 0b1000_0000 != 0) == iv
                &&& (v & 0b0100_0000 != 0) == nt
                &&& (v & 0b0010_0000 != 0) == sb
                &&& (v & 0b0001_0000 != 0) == bl
                &&& (v & 0b0000_0001) == spi
            }),
    {
    }

    /// Every value is read back from its byte.
    pub proof fn lemma_round_trip(self)
        ensures
            SIQ::spec_from_u8(self.spec_to_u8()) == self,
    {
        self.spi.lemma_round_trip();
        SIQ::lemma_bits(self.iv, self.nt, self.sb, self.bl, self.spi.spec_to_u8());
    }
}

impl From<u8> for SIQ {
    fn from(v: u8) -> (r: Self) {
        SIQ {
            iv: v & 0b1000_0000 != 0,
            nt: v & 0b0100_0000 != 0,
            sb: v & 0b0010_0000 != 0,
            bl: v & 0b0001_0000 != 0,
            spi: SPI::from(v & 0b0000_0001),
        }
    }
}

impl vstd::std_specs::convert::FromSpecImpl<u8> for SIQ {
    open spec fn obeys_from_spec() -> bool {
        true
    }

    open spec fn from_spec(v: u8) -> Self {
        SIQ::spec_from_u8(v)
    }
}

impl From<SIQ> for u8 {
    fn from(data: SIQ) -> (r: u8) {
        flag(data.iv, 0b1000_0000) | flag(data.nt, 0b0100_0000) | flag(data.sb, 0b0010_0000)
            | flag(data.bl, 0b0001_0000) | data.spi.code()
    }
}

impl vstd::std_specs::convert::FromSpecImpl<SIQ> for u8 {
    open spec fn obeys_from_spec() -> bool {
        true
    }

    open spec fn from_spec(data: SIQ) -> Self {
        data.spec_to_u8()
    }
}

/// Double point information with quality descriptor
#[derive(Debug, Copy, Clone, Eq, PartialEq, Default, Structural)]
pub struct DIQ {
    /// Invalid
    pub iv: bool,
    /// Not topical
    pub nt: bool,
    /// Substituted
    pub sb: bool,
    /// Blocked
    pub bl: bool,
    /// Double point information
    pub dpi: DPI,
}

impl DIQ {
    /// Bits 7 to 4: invalid, not topical, substituted, blocked. Bits 0 and 1: the double point.
    pub open spec fn spec_from_u8(v: u8) -> DIQ {
        DIQ {
            iv: v & 0b1000_0000 != 0,
            nt: v & 0b0100_0000 != 0,
            sb: v & 0b0010_0000 != 0,
            bl: v & 0b0001_0000 != 0,
            dpi: DPI::spec_from_u8(v & 0b0000_0011),
        }
    }

    /// The byte that holds this value.
    pub open spec fn spec_to_u8(self) -> u8 {
        spec_flag(self.iv, 0b1000_0000) | spec_flag(self.nt, 0b0100_0000)
            | spec_flag(self.sb, 0b0010_0000) | spec_flag(self.bl, 0b0001_0000)
            | self.dpi.spec_to_u8()
    }

    proof fn lemma_bits(iv: bool, nt: bool, sb: bool, bl: bool, dpi: u8)
        by (bit_vector)
        requires
            dpi <= 3,
        ensures
            ({
                let v = spec_flag(iv, 0b1000_0000) | spec_flag(nt, 0b0100_0000)
                    | spec_flag(sb, 0b0010_0000) | spec_flag(bl, 0b0001_0000) | dpi;
                &&& (v & 0b1000_0000 != 0) == iv
                &&& (v & 0b0100_0000 != 0) == nt
                &&& (v & 0b0010_0000 != 0) == sb
                &&& (v & 0b0001_0000 != 0) == bl
                &&& (v & 0b0000_0011) == dpi
            }),
    {
    }

    /// Every value is read back from its byte.
    pub proof fn lemma_round_trip(self)
        ensures
            DIQ::spec_from_u8(self.spec_to_u8()) == self,
    {
        self.dpi.lemma_round_trip();
        DIQ::lemma_bits(self.iv, self.nt, self.sb, self.bl, self.dpi.spec_to_u8());
    }
}

impl From<u8> for DIQ {
    fn from(v: u8) -> (r: Self) {
        DIQ {
            iv: v & 0b1000_0000 != 0,
            nt: v & 0b0100_0000 != 0,
            sb: v & 0b0010_0000 != 0,
            bl: v & 0b0001_0000 != 0,
            dpi: DPI::from(v & 0b0000_0011),
        }
    }
}

impl vstd::std_specs::convert::FromSpecImpl<u8> for DIQ {
    open spec fn obeys_from_spec() -> bool {
        true
    }

    open spec fn from_spec(v: u8) -> Self {
        DIQ::spec_from_u8(v)
    }
}

impl From<DIQ> for u8 {
    fn from(data: DIQ) -> (r: u8) {
        flag(data.iv, 0b1000_0000) | flag(data.nt, 0b0100_0000) | flag(data.sb, 0b0010_0000)
            | flag(data.bl, 0b0001_0000) | data.dpi.code()
    }
}

impl vstd::std_specs::convert::FromSpecImpl<DIQ> for u8 {
    open spec fn obeys_from_spec() -> bool {
        true
    }

    open spec fn from_spec(data: DIQ) -> Self {
        data.spec_to_u8()
    }
}

/// Single-point information
#[derive(Debug, Copy, Clone, Eq, PartialEq, Default, Structural)]
pub struct M_SP_NA_1 {
    /// Single point information with quality descriptor
    pub siq: SIQ,
}

impl M_SP_NA_1 {
    /// What the first byte of a value buffer spells.
    pub open spec fn spec_from_buffer(buf: DataBuffer) -> M_SP_NA_1 {
        M_SP_NA_1 {
            siq: SIQ::spec_from_u8(buf[0]),
        }
    }

    /// The value buffer that holds this payload, zero past its bytes.
    pub open spec fn spec_to_buffer(self) -> DataBuffer {
        [self.siq.spec_to_u8(), 0, 0, 0, 0, 0, 0, 0, 0, 0, 0, 0]
    }

    /// Every payload is read back from its value buffer.
    pub proof fn lemma_round_trip(self)
        ensures
            M_SP_NA_1::spec_from_buffer(self.spec_to_buffer()) == self,
    {
        self.siq.lemma_round_trip();
    }
}

impl From<DataBuffer> for M_SP_NA_1 {
    fn from(buf: DataBuffer) -> (r: Self) {
        M_SP_NA_1 {
            siq: SIQ::from(buf[0]),
        }
    }
}

impl vstd::std_specs::convert::FromSpecImpl<DataBuffer> for M_SP_NA_1 {
    open spec fn obeys_from_spec() -> bool {
        true
    }

    open spec fn from_spec(buf: DataBuffer) -> Self {
        M_SP_NA_1::spec_from_buffer(buf)
    }
}

impl From<M_SP_NA_1> for DataBuffer {
    fn from(data: M_SP_NA_1) -> (r: DataBuffer) {
        [u8::from(data.siq), 0, 0, 0, 0, 0, 0, 0, 0, 0, 0, 0]
    }
}

impl vstd::std_specs::convert::FromSpecImpl<M_SP_NA_1> for DataBuffer {
    open spec fn obeys_from_spec() -> bool {
        true
    }

    open spec fn from_spec(data: M_SP_NA_1) -> Self {
        data.spec_to_buffer()
    }
}

/// Single-point information with time tag
#[derive(Debug, Copy, Clone, Eq, PartialEq, Default, Structural)]
pub struct M_SP_TA_1 {
    /// Single point information with quality descriptor
    pub siq: SIQ,
    /// Time tag
    pub time: CP24Time2a,
}

impl M_SP_TA_1 {
    /// What the first 4 bytes of a value buffer spell.
    pub open spec fn spec_from_buffer(buf: DataBuffer) -> M_SP_TA_1 {
        M_SP_TA_1 {
            siq: SIQ::spec_from_u8(buf[0]),
            time: CP24Time2a::spec_from_bytes([buf[1], buf[2], buf[3]]),
        }
    }

    /// The value buffer that holds this payload, zero past its bytes.
    pub open spec fn spec_to_buffer(self) -> DataBuffer {
        let time = self.time.spec_to_bytes();
        [self.siq.spec_to_u8(), time[0], time[1], time[2], 0, 0, 0, 0, 0, 0, 0, 0]
    }

    /// Whether the payload is one that reading can give: every part of it is in range.
    pub open spec fn spec_in_range(self) -> bool {
        spec_cp24_in_range(self.time)
    }

    /// A payload in range is read back from its value buffer.
    pub proof fn lemma_round_trip(self)
        requires
            self.spec_in_range(),
        ensures
            M_SP_TA_1::spec_from_buffer(self.spec_to_buffer()) == self,
    {
        self.siq.lemma_round_trip();
        lemma_cp24_round_trip(self.time);
    }
}

impl From<DataBuffer> for M_SP_TA_1 {
    fn from(buf: DataBuffer) -> (r: Self) {
        M_SP_TA_1 {
            siq: SIQ::from(buf[0]),
            time: CP24Time2a::from([buf[1], buf[2], buf[3]]),
        }
    }
}

impl vstd::std_specs::convert::FromSpecImpl<DataBuffer> for M_SP_TA_1 {
    open spec fn obeys_from_spec() -> bool {
        true
    }

    open spec fn from_spec(buf: DataBuffer) -> Self {
        M_SP_TA_1::spec_from_buffer(buf)
    }
}

impl From<M_SP_TA_1> for DataBuffer {
    fn from(data: M_SP_TA_1) -> (r: DataBuffer) {
        let time: [u8; 3] = <[u8; 3]>::from(data.time);
        [u8::from(data.siq), time[0], time[1], time[2], 0, 0, 0, 0, 0, 0, 0, 0]
    }
}

impl vstd::std_specs::convert::FromSpecImpl<M_SP_TA_1> for DataBuffer {
    open spec fn obeys_from_spec() -> bool {
        true
    }

    open spec fn from_spec(data: M_SP_TA_1) -> Self {
        data.spec_to_buffer()
    }
}

/// Double-point information
#[derive(Debug, Copy, Clone, Eq, PartialEq, Default, Structural)]
pub struct M_DP_NA_1 {
    /// Double point information with quality descriptor
    pub diq: DIQ,
}

impl M_DP_NA_1 {
    /// What the first byte of a value buffer spells.
    pub open spec fn spec_from_buffer(buf: DataBuffer) -> M_DP_NA_1 {
        M_DP_NA_1 {
            diq: DIQ::spec_from_u8(buf[0]),
        }
    }

    /// The value buffer that holds this payload, zero past its bytes.
    pub open spec fn spec_to_buffer(self) -> DataBuffer {
        [self.diq.spec_to_u8(), 0, 0, 0, 0, 0, 0, 0, 0, 0, 0, 0]
    }

    /// Every payload is read back from its value buffer.
    pub proof fn lemma_round_trip(self)
        ensures
            M_DP_NA_1::spec_from_buffer(self.spec_to_buffer()) == self,
    {
        self.diq.lemma_round_trip();
    }
}

impl From<DataBuffer> for M_DP_NA_1 {
    fn from(buf: DataBuffer) -> (r: Self) {
        M_DP_NA_1 {
            diq: DIQ::from(buf[0]),
        }
    }
}

impl vstd::std_specs::convert::FromSpecImpl<DataBuffer> for M_DP_NA_1 {
    open spec fn obeys_from_spec() -> bool {
        true
    }

    open spec fn from_spec(buf: DataBuffer) -> Self {
        M_DP_NA_1::spec_from_buffer(buf)
    }
}

impl From<M_DP_NA_1> for DataBuffer {
    fn from(data: M_DP_NA_1) -> (r: DataBuffer) {
        [u8::from(data.diq), 0, 0, 0, 0, 0, 0, 0, 0, 0, 0, 0]
    }
}

impl vstd::std_specs::convert::FromSpecImpl<M_DP_NA_1> for DataBuffer {
    open spec fn obeys_from_spec() -> bool {
        true
    }

    open spec fn from_spec(data: M_DP_NA_1) -> Self {
        data.spec_to_buffer()
    }
}

/// Double-point information with time tag
#[derive(Debug, Copy, Clone, Eq, PartialEq, Default, Structural)]
pub struct M_DP_TA_1 {
    /// Double point information with quality descriptor
    pub diq: DIQ,
    /// Time tag
    pub time: CP24Time2a,
}

impl M_DP_TA_1 {
    /// What the first 4 bytes of a value buffer spell.
    pub open spec fn spec_from_buffer(buf: DataBuffer) -> M_DP_TA_1 {
        M_DP_TA_1 {
            diq: DIQ::spec_from_u8(buf[0]),
            time: CP24Time2a::spec_from_bytes([buf[1], buf[2], buf[3]]),
        }
    }

    /// The value buffer that holds this payload, zero past its bytes.
    pub open spec fn spec_to_buffer(self) -> DataBuffer {
        let time = self.time.spec_to_bytes();
        [self.diq.spec_to_u8(), time[0], time[1], time[2], 0, 0, 0, 0, 0, 0, 0, 0]
    }

    /// Whether the payload is one that reading can give: every part of it is in range.
    pub open spec fn spec_in_range(self) -> bool {
        spec_cp24_in_range(self.time)
    }

    /// A payload in range is read back from its value buffer.
    pub proof fn lemma_round_trip(self)
        requires
            self.spec_in_range(),
        ensures
            M_DP_TA_1::spec_from_buffer(self.spec_to_buffer()) == self,
    {
        self.diq.lemma_round_trip();
        lemma_cp24_round_trip(self.time);
    }
}

impl From<DataBuffer> for M_DP_TA_1 {
    fn from(buf: DataBuffer) -> (r: Self) {
        M_DP_TA_1 {
            diq: DIQ::from(buf[0]),
            time: CP24Time2a::from([buf[1], buf[2], buf[3]]),
        }
    }
}

impl vstd::std_specs::convert::FromSpecImpl<DataBuffer> for M_DP_TA_1 {
    open spec fn obeys_from_spec() -> bool {
        true
    }

    open spec fn from_spec(buf: DataBuffer) -> Self {
        M_DP_TA_1::spec_from_buffer(buf)
    }
}

impl From<M_DP_TA_1> for DataBuffer {
    fn from(data: M_DP_TA_1) -> (r: DataBuffer) {
        let time: [u8; 3] = <[u8; 3]>::from(data.time);
        [u8::from(data.diq), time[0], time[1], time[2], 0, 0, 0, 0, 0, 0, 0, 0]
    }
}

impl vstd::std_specs::convert::FromSpecImpl<M_DP_TA_1> for DataBuffer {
    open spec fn obeys_from_spec() -> bool {
        true
    }

    open spec fn from_spec(data: M_DP_TA_1) -> Self {
        data.spec_to_buffer()
    }
}

/// Quality descriptor
#[derive(Debug, Copy, Clone, Eq, PartialEq, Default, Structural)]
pub struct QDS {
    /// Invalid
    pub iv: bool,
    /// Not topical
    pub nt: bool,
    /// Substituted
    pub sb: bool,
    /// Blocked
    pub bl: bool,
    /// Overflow
    pub ov: bool,
}

impl QDS {
    /// Bits 7 to 4: invalid, not topical, substituted, blocked. Bit 0: overflow.
    pub open spec fn spec_from_u8(v: u8) -> QDS {
        QDS {
            iv: v & 0b1000_0000 != 0,
            nt: v & 0b0100_0000 != 0,
            sb: v & 0b0010_0000 != 0,
            bl: v & 0b0001_0000 != 0,
            ov: v & 0b0000_0001 != 0,
        }
    }

    /// The byte that holds this value.
    pub open spec fn spec_to_u8(self) -> u8 {
        spec_flag(self.iv, 0b1000_0000) | spec_flag(self.nt, 0b0100_0000)
            | spec_flag(self.sb, 0b0010_0000) | spec_flag(self.bl, 0b0001_0000)
            | spec_flag(self.ov, 0b0000_0001)
    }

    proof fn lemma_bits(iv: bool, nt: bool, sb: bool, bl: bool, ov: bool)
        by (bit_vector)
        ensures
            ({
                let v = spec_flag(iv, 0b1000_0000) | spec_flag(nt, 0b0100_0000)
                    | spec_flag(sb, 0b0010_0000) | spec_flag(bl, 0b0001_0000)
                    | spec_flag(ov, 0b0000_0001);
                &&& (v & 0b1000_0000 != 0) == iv
                &&& (v & 0b0100_0000 != 0) == nt
                &&& (v & 0b0010_0000 != 0) == sb
                &&& (v & 0b0001_0000 != 0) == bl
                &&& (v & 0b0000_0001 != 0) == ov
            }),
    {
    }

    /// Every value is read back from its byte.
    pub proof fn lemma_round_trip(self)
        ensures
            QDS::spec_from_u8(self.spec_to_u8()) == self,
    {
        QDS::lemma_bits(self.iv, self.nt, self.sb, self.bl, self.ov);
    }
}

impl From<u8> for QDS {
    fn from(v: u8) -> (r: Self) {
        QDS {
            iv: v & 0b1000_0000 != 0,
            nt: v & 0b0100_0000 != 0,
            sb: v & 0b0010_0000 != 0,
            bl: v & 0b0001_0000 != 0,
            ov: v & 0b0000_0001 != 0,
        }
    }
}

impl vstd::std_specs::convert::FromSpecImpl<u8> for QDS {
    open spec fn obeys_from_spec() -> bool {
        true
    }

    open spec fn from_spec(v: u8) -> Self {
        QDS::spec_from_u8(v)
    }
}

impl From<QDS> for u8 {
    fn from(data: QDS) -> (r: u8) {
        flag(data.iv, 0b1000_0000) | flag(data.nt, 0b0100_0000) | flag(data.sb, 0b0010_0000)
            | flag(data.bl, 0b0001_0000) | flag(data.ov, 0b0000_0001)
    }
}

impl vstd::std_specs::convert::FromSpecImpl<QDS> for u8 {
    open spec fn obeys_from_spec() -> bool {
        true
    }

    open spec fn from_spec(data: QDS) -> Self {
        data.spec_to_u8()
    }
}

/// Value with transient state indication
#[derive(Debug, Copy, Clone, Eq, PartialEq, Default, Structural)]
pub struct VTI {
    /// Value
    pub value: u8,
    /// Transient state indication
    pub transient: bool,
    /// Quality descriptor
    pub qds: QDS,
}

impl VTI {
    /// The value is read from bits 0 to 6 of the first byte; the transient flag and the
    /// quality descriptor are both read from the second byte, the flag from its bit 7.
    pub open spec fn spec_from_bytes(buf: [u8; 2]) -> VTI {
        VTI {
            value: buf[0] & 0b0111_1111,
            transient: buf[1] & 0b1000_0000 != 0,
            qds: QDS::spec_from_u8(buf[1]),
        }
    }

    /// The value with the transient flag in bit 7, then the quality descriptor.
    pub open spec fn spec_to_bytes(self) -> [u8; 2] {
        [self.value | spec_flag(self.transient, 0b1000_0000), self.qds.spec_to_u8()]
    }

    proof fn lemma_bits(value: u8, transient: bool)
        by (bit_vector)
        requires
            value < 128,
        ensures
            ((value | spec_flag(transient, 0b1000_0000)) & 0b0111_1111) == value,
    {
    }

    /// Whether the value is one that reading can give: the value fits in seven bits, and the
    /// transient flag agrees with the invalid flag, from whose bit it is read.
    pub open spec fn spec_in_range(self) -> bool {
        self.value < 128 && self.transient == self.qds.iv
    }

    /// A value in range is read back from its two bytes.
    pub proof fn lemma_round_trip(self)
        requires
            self.spec_in_range(),
        ensures
            VTI::spec_from_bytes(self.spec_to_bytes()) == self,
    {
        self.qds.lemma_round_trip();
        VTI::lemma_bits(self.value, self.transient);
    }
}

impl From<[u8; 2]> for VTI {
    fn from(buf: [u8; 2]) -> (r: Self) {
        VTI {
            value: buf[0] & 0b0111_1111,
            transient: buf[1] & 0b1000_0000 != 0,
            qds: QDS::from(buf[1]),
        }
    }
}

impl vstd::std_specs::convert::FromSpecImpl<[u8; 2]> for VTI {
    open spec fn obeys_from_spec() -> bool {
        true
    }

    open spec fn from_spec(buf: [u8; 2]) -> Self {
        VTI::spec_from_bytes(buf)
    }
}

impl From<VTI> for [u8; 2] {
    fn from(data: VTI) -> (r: [u8; 2]) {
        [data.value | flag(data.transient, 0b1000_0000), u8::from(data.qds)]
    }
}

impl vstd::std_specs::convert::FromSpecImpl<VTI> for [u8; 2] {
    open spec fn obeys_from_spec() -> bool {
        true
    }

    open spec fn from_spec(data: VTI) -> Self {
        data.spec_to_bytes()
    }
}

/// Step position information
#[derive(Debug, Copy, Clone, Eq, PartialEq, Default, Structural)]
pub struct M_ST_NA_1 {
    /// Value with transient state indication
    pub vti: VTI,
}

impl M_ST_NA_1 {
    /// What the first 2 bytes of a value buffer spell.
    pub open spec fn spec_from_buffer(buf: DataBuffer) -> M_ST_NA_1 {
        M_ST_NA_1 {
            vti: VTI::spec_from_bytes([buf[0], buf[1]]),
        }
    }

    /// The value buffer that holds this payload, zero past its bytes.
    pub open spec fn spec_to_buffer(self) -> DataBuffer {
        let vti = self.vti.spec_to_bytes();
        [vti[0], vti[1], 0, 0, 0, 0, 0, 0, 0, 0, 0, 0]
    }

    /// Whether the payload is one that reading can give: every part of it is in range.
    pub open spec fn spec_in_range(self) -> bool {
        self.vti.spec_in_range()
    }

    /// A payload in range is read back from its value buffer.
    pub proof fn lemma_round_trip(self)
        requires
            self.spec_in_range(),
        ensures
            M_ST_NA_1::spec_from_buffer(self.spec_to_buffer()) == self,
    {
        self.vti.lemma_round_trip();
    }
}

impl From<DataBuffer> for M_ST_NA_1 {
    fn from(buf: DataBuffer) -> (r: Self) {
        M_ST_NA_1 {
            vti: VTI::from([buf[0], buf[1]]),
        }
    }
}

impl vstd::std_specs::convert::FromSpecImpl<DataBuffer> for M_ST_NA_1 {
    open spec fn obeys_from_spec() -> bool {
        true
    }

    open spec fn from_spec(buf: DataBuffer) -> Self {
        M_ST_NA_1::spec_from_buffer(buf)
    }
}

impl From<M_ST_NA_1> for DataBuffer {
    fn from(data: M_ST_NA_1) -> (r: DataBuffer) {
        let vti: [u8; 2] = <[u8; 2]>::from(data.vti);
        [vti[0], vti[1], 0, 0, 0, 0, 0, 0, 0, 0, 0, 0]
    }
}

impl vstd::std_specs::convert::FromSpecImpl<M_ST_NA_1> for DataBuffer {
    open spec fn obeys_from_spec() -> bool {
        true
    }

    open spec fn from_spec(data: M_ST_NA_1) -> Self {
        data.spec_to_buffer()
    }
}

/// Step position information with time tag
#[derive(Debug, Copy, Clone, Eq, PartialEq, Default, Structural)]
pub struct M_ST_TA_1 {
    /// Value with transient state indication
    pub vti: VTI,
    /// Time tag
    pub time: CP24Time2a,
}

impl M_ST_TA_1 {
    /// What the first 5 bytes of a value buffer spell.
    pub open spec fn spec_from_buffer(buf: DataBuffer) -> M_ST_TA_1 {
        M_ST_TA_1 {
            vti: VTI::spec_from_bytes([buf[0], buf[1]]),
            time: CP24Time2a::spec_from_bytes([buf[2], buf[3], buf[4]]),
        }
    }

    /// The value buffer that holds this payload, zero past its bytes.
    pub open spec fn spec_to_buffer(self) -> DataBuffer {
        let vti = self.vti.spec_to_bytes();
        let time = self.time.spec_to_bytes();
        [vti[0], vti[1], time[0], time[1], time[2], 0, 0, 0, 0, 0, 0, 0]
    }

    /// Whether the payload is one that reading can give: every part of it is in range.
    pub open spec fn spec_in_range(self) -> bool {
        self.vti.spec_in_range() && spec_cp24_in_range(self.time)
    }

    /// A payload in range is read back from its value buffer.
    pub proof fn lemma_round_trip(self)
        requires
            self.spec_in_range(),
        ensures
            M_ST_TA_1::spec_from_buffer(self.spec_to_buffer()) == self,
    {
        self.vti.lemma_round_trip();
        lemma_cp24_round_trip(self.time);
    }
}

impl From<DataBuffer> for M_ST_TA_1 {
    fn from(buf: DataBuffer) -> (r: Self) {
        M_ST_TA_1 {
            vti: VTI::from([buf[0], buf[1]]),
            time: CP24Time2a::from([buf[2], buf[3], buf[4]]),
        }
    }
}

impl vstd::std_specs::convert::FromSpecImpl<DataBuffer> for M_ST_TA_1 {
    open spec fn obeys_from_spec() -> bool {
        true
    }

    open spec fn from_spec(buf: DataBuffer) -> Self {
        M_ST_TA_1::spec_from_buffer(buf)
    }
}

impl From<M_ST_TA_1> for DataBuffer {
    fn from(data: M_ST_TA_1) -> (r: DataBuffer) {
        let vti: [u8; 2] = <[u8; 2]>::from(data.vti);
        let time: [u8; 3] = <[u8; 3]>::from(data.time);
        [vti[0], vti[1], time[0], time[1], time[2], 0, 0, 0, 0, 0, 0, 0]
    }
}

impl vstd::std_specs::convert::FromSpecImpl<M_ST_TA_1> for DataBuffer {
    open spec fn obeys_from_spec() -> bool {
        true
    }

    open spec fn from_spec(data: M_ST_TA_1) -> Self {
        data.spec_to_buffer()
    }
}

/// Bit string of 32 bits
#[derive(Debug, Copy, Clone, Eq, PartialEq, Default, Structural)]
pub struct BSI {
    /// Value
    pub value: u32,
}

impl BSI {
    /// Four bytes, little-endian.
    pub open spec fn spec_from_bytes(buf: [u8; 4]) -> BSI {
        BSI { value: spec_le_join(buf[0], buf[1], buf[2], buf[3]) }
    }

    /// Four bytes, little-endian.
    pub open spec fn spec_to_bytes(self) -> [u8; 4] {
        [
            spec_le_byte(self.value, 0),
            spec_le_byte(self.value, 1),
            spec_le_byte(self.value, 2),
            spec_le_byte(self.value, 3),
        ]
    }

    /// Every value is read back from its four bytes.
    pub proof fn lemma_round_trip(self)
        ensures
            BSI::spec_from_bytes(self.spec_to_bytes()) == self,
    {
        lemma_le_round_trip(self.value, 4);
    }
}

impl From<[u8; 4]> for BSI {
    fn from(buf: [u8; 4]) -> (r: Self) {
        BSI {
            value: (buf[0] as u32) | ((buf[1] as u32) << 8) | ((buf[2] as u32) << 16)
                | ((buf[3] as u32)
                << 24),
        }
    }
}

impl vstd::std_specs::convert::FromSpecImpl<[u8; 4]> for BSI {
    open spec fn obeys_from_spec() -> bool {
        true
    }

    open spec fn from_spec(buf: [u8; 4]) -> Self {
        BSI::spec_from_bytes(buf)
    }
}

impl From<BSI> for [u8; 4] {
    fn from(data: BSI) -> (r: [u8; 4]) {
        [
            (data.value & 0xff) as u8,
            ((data.value >> 8) & 0xff) as u8,
            ((data.value >> 16) & 0xff) as u8,
            ((data.value >> 24) & 0xff) as u8,
        ]
    }
}

impl vstd::std_specs::convert::FromSpecImpl<BSI> for [u8; 4] {
    open spec fn obeys_from_spec() -> bool {
        true
    }

    open spec fn from_spec(data: BSI) -> Self {
        data.spec_to_bytes()
    }
}

/// Bit string of 32 bits
#[derive(Debug, Copy, Clone, Eq, PartialEq, Default, Structural)]
pub struct M_BO_NA_1 {
    /// Bit string of 32 bits
    pub bsi: BSI,
    /// Quality descriptor
    pub qds: QDS,
}

impl M_BO_NA_1 {
    /// What the first 5 bytes of a value buffer spell.
    pub open spec fn spec_from_buffer(buf: DataBuffer) -> M_BO_NA_1 {
        M_BO_NA_1 {
            bsi: BSI::spec_from_bytes([buf[0], buf[1], buf[2], buf[3]]),
            qds: QDS::spec_from_u8(buf[4]),
        }
    }

    /// The value buffer that holds this payload, zero past its bytes.
    pub open spec fn spec_to_buffer(self) -> DataBuffer {
        let bsi = self.bsi.spec_to_bytes();
        [bsi[0], bsi[1], bsi[2], bsi[3], self.qds.spec_to_u8(), 0, 0, 0, 0, 0, 0, 0]
    }

    /// Every payload is read back from its value buffer.
    pub proof fn lemma_round_trip(self)
        ensures
            M_BO_NA_1::spec_from_buffer(self.spec_to_buffer()) == self,
    {
        self.bsi.lemma_round_trip();
        self.qds.lemma_round_trip();
    }
}

impl From<DataBuffer> for M_BO_NA_1 {
    fn from(buf: DataBuffer) -> (r: Self) {
        M_BO_NA_1 {
            bsi: BSI::from([buf[0], buf[1], buf[2], buf[3]]),
            qds: QDS::from(buf[4]),
        }
    }
}

impl vstd::std_specs::convert::FromSpecImpl<DataBuffer> for M_BO_NA_1 {
    open spec fn obeys_from_spec() -> bool {
        true
    }

    open spec fn from_spec(buf: DataBuffer) -> Self {
        M_BO_NA_1::spec_from_buffer(buf)
    }
}

impl From<M_BO_NA_1> for DataBuffer {
    fn from(data: M_BO_NA_1) -> (r: DataBuffer) {
        let bsi: [u8; 4] = <[u8; 4]>::from(data.bsi);
        [bsi[0], bsi[1], bsi[2], bsi[3], u8::from(data.qds), 0, 0, 0, 0, 0, 0, 0]
    }
}

impl vstd::std_specs::convert::FromSpecImpl<M_BO_NA_1> for DataBuffer {
    open spec fn obeys_from_spec() -> bool {
        true
    }

    open spec fn from_spec(data: M_BO_NA_1) -> Self {
        data.spec_to_buffer()
    }
}

/// Bit string of 32 bits with time tag
#[derive(Debug, Copy, Clone, Eq, PartialEq, Default, Structural)]
pub struct M_BO_TA_1 {
    /// Bit string of 32 bits
    pub bsi: BSI,
    /// Quality descriptor
    pub qds: QDS,
    /// Time tag
    pub time: CP24Time2a,
}

impl M_BO_TA_1 {
    /// What the first 8 bytes of a value buffer spell.
    pub open spec fn spec_from_buffer(buf: DataBuffer) -> M_BO_TA_1 {
        M_BO_TA_1 {
            bsi: BSI::spec_from_bytes([buf[0], buf[1], buf[2], buf[3]]),
            qds: QDS::spec_from_u8(buf[4]),
            time: CP24Time2a::spec_from_bytes([buf[5], buf[6], buf[7]]),
        }
    }

    /// The value buffer that holds this payload, zero past its bytes.
    pub open spec fn spec_to_buffer(self) -> DataBuffer {
        let bsi = self.bsi.spec_to_bytes();
        let time = self.time.spec_to_bytes();
        [
            bsi[0],
            bsi[1],
            bsi[2],
            bsi[3],
            self.qds.spec_to_u8(),
            time[0],
            time[1],
            time[2],
            0,
            0,
            0,
            0,
        ]
    }

    /// Whether the payload is one that reading can give: every part of it is in range.
    pub open spec fn spec_in_range(self) -> bool {
        spec_cp24_in_range(self.time)
    }

    /// A payload in range is read back from its value buffer.
    pub proof fn lemma_round_trip(self)
        requires
            self.spec_in_range(),
        ensures
            M_BO_TA_1::spec_from_buffer(self.spec_to_buffer()) == self,
    {
        self.bsi.lemma_round_trip();
        self.qds.lemma_round_trip();
        lemma_cp24_round_trip(self.time);
    }
}

impl From<DataBuffer> for M_BO_TA_1 {
    fn from(buf: DataBuffer) -> (r: Self) {
        M_BO_TA_1 {
            bsi: BSI::from([buf[0], buf[1], buf[2], buf[3]]),
            qds: QDS::from(buf[4]),
            time: CP24Time2a::from([buf[5], buf[6], buf[7]]),
        }
    }
}

impl vstd::std_specs::convert::FromSpecImpl<DataBuffer> for M_BO_TA_1 {
    open spec fn obeys_from_spec() -> bool {
        true
    }

    open spec fn from_spec(buf: DataBuffer) -> Self {
        M_BO_TA_1::spec_from_buffer(buf)
    }
}

impl From<M_BO_TA_1> for DataBuffer {
    fn from(data: M_BO_TA_1) -> (r: DataBuffer) {
        let bsi: [u8; 4] = <[u8; 4]>::from(data.bsi);
        let time: [u8; 3] = <[u8; 3]>::from(data.time);
        [bsi[0], bsi[1], bsi[2], bsi[3], u8::from(data.qds), time[0], time[1], time[2], 0, 0, 0, 0]
    }
}

impl vstd::std_specs::convert::FromSpecImpl<M_BO_TA_1> for DataBuffer {
    open spec fn obeys_from_spec() -> bool {
        true
    }

    open spec fn from_spec(data: M_BO_TA_1) -> Self {
        data.spec_to_buffer()
    }
}

/// Normalized value
#[derive(Debug, Copy, Clone, Eq, PartialEq, Default, Structural)]
pub struct NVA {
    /// Value
    pub value: u16,
}

impl NVA {
    /// Two bytes, little-endian.
    pub open spec fn spec_from_bytes(buf: [u8; 2]) -> NVA {
        NVA { value: spec_u16_le(buf[0], buf[1]) }
    }

    /// Two bytes, little-endian.
    pub open spec fn spec_to_bytes(self) -> [u8; 2] {
        [spec_u16_low(self.value), spec_u16_high(self.value)]
    }

    /// Every value is read back from its two bytes.
    pub proof fn lemma_round_trip(self)
        ensures
            NVA::spec_from_bytes(self.spec_to_bytes()) == self,
    {
        lemma_u16_le_round_trip(self.value, 0, 0);
    }
}

impl From<[u8; 2]> for NVA {
    fn from(buf: [u8; 2]) -> (r: Self) {
        NVA { value: (buf[0] as u16) | ((buf[1] as u16) << 8) }
    }
}

impl vstd::std_specs::convert::FromSpecImpl<[u8; 2]> for NVA {
    open spec fn obeys_from_spec() -> bool {
        true
    }

    open spec fn from_spec(buf: [u8; 2]) -> Self {
        NVA::spec_from_bytes(buf)
    }
}

impl From<NVA> for [u8; 2] {
    fn from(data: NVA) -> (r: [u8; 2]) {
        [(data.value & 0xff) as u8, (data.value >> 8) as u8]
    }
}

impl vstd::std_specs::convert::FromSpecImpl<NVA> for [u8; 2] {
    open spec fn obeys_from_spec() -> bool {
        true
    }

    open spec fn from_spec(data: NVA) -> Self {
        data.spec_to_bytes()
    }
}

/// Measured value, normalized value
#[derive(Debug, Copy, Clone, Eq, PartialEq, Default, Structural)]
pub struct M_ME_NA_1 {
    /// Normalized value
    pub nva: NVA,
    /// Quality descriptor
    pub qds: QDS,
}

impl M_ME_NA_1 {
    /// What the first 3 bytes of a value buffer spell.
    pub open spec fn spec_from_buffer(buf: DataBuffer) -> M_ME_NA_1 {
        M_ME_NA_1 {
            nva: NVA::spec_from_bytes([buf[0], buf[1]]),
            qds: QDS::spec_from_u8(buf[2]),
        }
    }

    /// The value buffer that holds this payload, zero past its bytes.
    pub open spec fn spec_to_buffer(self) -> DataBuffer {
        let nva = self.nva.spec_to_bytes();
        [nva[0], nva[1], self.qds.spec_to_u8(), 0, 0, 0, 0, 0, 0, 0, 0, 0]
    }

    /// Every payload is read back from its value buffer.
    pub proof fn lemma_round_trip(self)
        ensures
            M_ME_NA_1::spec_from_buffer(self.spec_to_buffer()) == self,
    {
        self.nva.lemma_round_trip();
        self.qds.lemma_round_trip();
    }
}

impl From<DataBuffer> for M_ME_NA_1 {
    fn from(buf: DataBuffer) -> (r: Self) {
        M_ME_NA_1 {
            nva: NVA::from([buf[0], buf[1]]),
            qds: QDS::from(buf[2]),
        }
    }
}

impl vstd::std_specs::convert::FromSpecImpl<DataBuffer> for M_ME_NA_1 {
    open spec fn obeys_from_spec() -> bool {
        true
    }

    open spec fn from_spec(buf: DataBuffer) -> Self {
        M_ME_NA_1::spec_from_buffer(buf)
    }
}

impl From<M_ME_NA_1> for DataBuffer {
    fn from(data: M_ME_NA_1) -> (r: DataBuffer) {
        let nva: [u8; 2] = <[u8; 2]>::from(data.nva);
        [nva[0], nva[1], u8::from(data.qds), 0, 0, 0, 0, 0, 0, 0, 0, 0]
    }
}

impl vstd::std_specs::convert::FromSpecImpl<M_ME_NA_1> for DataBuffer {
    open spec fn obeys_from_spec() -> bool {
        true
    }

    open spec fn from_spec(data: M_ME_NA_1) -> Self {
        data.spec_to_buffer()
    }
}

/// Measured value, normalized value with time tag
#[derive(Debug, Copy, Clone, Eq, PartialEq, Default, Structural)]
pub struct M_ME_TA_1 {
    /// Normalized value
    pub nva: NVA,
    /// Quality descriptor
    pub qds: QDS,
    /// Time tag
    pub time: CP24Time2a,
}

impl M_ME_TA_1 {
    /// What the first 6 bytes of a value buffer spell.
    pub open spec fn spec_from_buffer(buf: DataBuffer) -> M_ME_TA_1 {
        M_ME_TA_1 {
            nva: NVA::spec_from_bytes([buf[0], buf[1]]),
            qds: QDS::spec_from_u8(buf[2]),
            time: CP24Time2a::spec_from_bytes([buf[3], buf[4], buf[5]]),
        }
    }

    /// The value buffer that holds this payload, zero past its bytes.
    pub open spec fn spec_to_buffer(self) -> DataBuffer {
        let nva = self.nva.spec_to_bytes();
        let time = self.time.spec_to_bytes();
        [nva[0], nva[1], self.qds.spec_to_u8(), time[0], time[1], time[2], 0, 0, 0, 0, 0, 0]
    }

    /// Whether the payload is one that reading can give: every part of it is in range.
    pub open spec fn spec_in_range(self) -> bool {
        spec_cp24_in_range(self.time)
    }

    /// A payload in range is read back from its value buffer.
    pub proof fn lemma_round_trip(self)
        requires
            self.spec_in_range(),
        ensures
            M_ME_TA_1::spec_from_buffer(self.spec_to_buffer()) == self,
    {
        self.nva.lemma_round_trip();
        self.qds.lemma_round_trip();
        lemma_cp24_round_trip(self.time);
    }
}

impl From<DataBuffer> for M_ME_TA_1 {
    fn from(buf: DataBuffer) -> (r: Self) {
        M_ME_TA_1 {
            nva: NVA::from([buf[0], buf[1]]),
            qds: QDS::from(buf[2]),
            time: CP24Time2a::from([buf[3], buf[4], buf[5]]),
        }
    }
}

impl vstd::std_specs::convert::FromSpecImpl<DataBuffer> for M_ME_TA_1 {
    open spec fn obeys_from_spec() -> bool {
        true
    }

    open spec fn from_spec(buf: DataBuffer) -> Self {
        M_ME_TA_1::spec_from_buffer(buf)
    }
}

impl From<M_ME_TA_1> for DataBuffer {
    fn from(data: M_ME_TA_1) -> (r: DataBuffer) {
        let nva: [u8; 2] = <[u8; 2]>::from(data.nva);
        let time: [u8; 3] = <[u8; 3]>::from(data.time);
        [nva[0], nva[1], u8::from(data.qds), time[0], time[1], time[2], 0, 0, 0, 0, 0, 0]
    }
}

impl vstd::std_specs::convert::FromSpecImpl<M_ME_TA_1> for DataBuffer {
    open spec fn obeys_from_spec() -> bool {
        true
    }

    open spec fn from_spec(data: M_ME_TA_1) -> Self {
        data.spec_to_buffer()
    }
}

/// Scaled value
#[derive(Debug, Copy, Clone, Eq, PartialEq, Default, Structural)]
pub struct SVA {
    /// Value
    pub value: u16,
}

impl SVA {
    /// Two bytes, little-endian.
    pub open spec fn spec_from_bytes(buf: [u8; 2]) -> SVA {
        SVA { value: spec_u16_le(buf[0], buf[1]) }
    }

    /// Two bytes, little-endian.
    pub open spec fn spec_to_bytes(self) -> [u8; 2] {
        [spec_u16_low(self.value), spec_u16_high(self.value)]
    }

    /// Every value is read back from its two bytes.
    pub proof fn lemma_round_trip(self)
        ensures
            SVA::spec_from_bytes(self.spec_to_bytes()) == self,
    {
        lemma_u16_le_round_trip(self.value, 0, 0);
    }
}

impl From<[u8; 2]> for SVA {
    fn from(buf: [u8; 2]) -> (r: Self) {
        SVA { value: (buf[0] as u16) | ((buf[1] as u16) << 8) }
    }
}

impl vstd::std_specs::convert::FromSpecImpl<[u8; 2]> for SVA {
    open spec fn obeys_from_spec() -> bool {
        true
    }

    open spec fn from_spec(buf: [u8; 2]) -> Self {
        SVA::spec_from_bytes(buf)
    }
}

impl From<SVA> for [u8; 2] {
    fn from(data: SVA) -> (r: [u8; 2]) {
        [(data.value & 0xff) as u8, (data.value >> 8) as u8]
    }
}

impl vstd::std_specs::convert::FromSpecImpl<SVA> for [u8; 2] {
    open spec fn obeys_from_spec() -> bool {
        true
    }

    open spec fn from_spec(data: SVA) -> Self {
        data.spec_to_bytes()
    }
}

/// Measured value, scaled value
#[derive(Debug, Copy, Clone, Eq, PartialEq, Default, Structural)]
pub struct M_ME_NB_1 {
    /// Scaled value
    pub sva: SVA,
    /// Quality descriptor
    pub qds: QDS,
}

impl M_ME_NB_1 {
    /// What the first 3 bytes of a value buffer spell.
    pub open spec fn spec_from_buffer(buf: DataBuffer) -> M_ME_NB_1 {
        M_ME_NB_1 {
            sva: SVA::spec_from_bytes([buf[0], buf[1]]),
            qds: QDS::spec_from_u8(buf[2]),
        }
    }

    /// The value buffer that holds this payload, zero past its bytes.
    pub open spec fn spec_to_buffer(self) -> DataBuffer {
        let sva = self.sva.spec_to_bytes();
        [sva[0], sva[1], self.qds.spec_to_u8(), 0, 0, 0, 0, 0, 0, 0, 0, 0]
    }

    /// Every payload is read back from its value buffer.
    pub proof fn lemma_round_trip(self)
        ensures
            M_ME_NB_1::spec_from_buffer(self.spec_to_buffer()) == self,
    {
        self.sva.lemma_round_trip();
        self.qds.lemma_round_trip();
    }
}

impl From<DataBuffer> for M_ME_NB_1 {
    fn from(buf: DataBuffer) -> (r: Self) {
        M_ME_NB_1 {
            sva: SVA::from([buf[0], buf[1]]),
            qds: QDS::from(buf[2]),
        }
    }
}

impl vstd::std_specs::convert::FromSpecImpl<DataBuffer> for M_ME_NB_1 {
    open spec fn obeys_from_spec() -> bool {
        true
    }

    open spec fn from_spec(buf: DataBuffer) -> Self {
        M_ME_NB_1::spec_from_buffer(buf)
    }
}

impl From<M_ME_NB_1> for DataBuffer {
    fn from(data: M_ME_NB_1) -> (r: DataBuffer) {
        let sva: [u8; 2] = <[u8; 2]>::from(data.sva);
        [sva[0], sva[1], u8::from(data.qds), 0, 0, 0, 0, 0, 0, 0, 0, 0]
    }
}

impl vstd::std_specs::convert::FromSpecImpl<M_ME_NB_1> for DataBuffer {
    open spec fn obeys_from_spec() -> bool {
        true
    }

    open spec fn from_spec(data: M_ME_NB_1) -> Self {
        data.spec_to_buffer()
    }
}

/// Measured value, scaled value with time tag
#[derive(Debug, Copy, Clone, Eq, PartialEq, Default, Structural)]
pub struct M_ME_TB_1 {
    /// Scaled value
    pub sva: SVA,
    /// Quality descriptor
    pub qds: QDS,
    /// Time tag
    pub time: CP24Time2a,
}

impl M_ME_TB_1 {
    /// What the first 6 bytes of a value buffer spell.
    pub open spec fn spec_from_buffer(buf: DataBuffer) -> M_ME_TB_1 {
        M_ME_TB_1 {
            sva: SVA::spec_from_bytes([buf[0], buf[1]]),
            qds: QDS::spec_from_u8(buf[2]),
            time: CP24Time2a::spec_from_bytes([buf[3], buf[4], buf[5]]),
        }
    }

    /// The value buffer that holds this payload, zero past its bytes.
    pub open spec fn spec_to_buffer(self) -> DataBuffer {
        let sva = self.sva.spec_to_bytes();
        let time = self.time.spec_to_bytes();
        [sva[0], sva[1], self.qds.spec_to_u8(), time[0], time[1], time[2], 0, 0, 0, 0, 0, 0]
    }

    /// Whether the payload is one that reading can give: every part of it is in range.
    pub open spec fn spec_in_range(self) -> bool {
        spec_cp24_in_range(self.time)
    }

    /// A payload in range is read back from its value buffer.
    pub proof fn lemma_round_trip(self)
        requires
            self.spec_in_range(),
        ensures
            M_ME_TB_1::spec_from_buffer(self.spec_to_buffer()) == self,
    {
        self.sva.lemma_round_trip();
        self.qds.lemma_round_trip();
        lemma_cp24_round_trip(self.time);
    }
}

impl From<DataBuffer> for M_ME_TB_1 {
    fn from(buf: DataBuffer) -> (r: Self) {
        M_ME_TB_1 {
            sva: SVA::from([buf[0], buf[1]]),
            qds: QDS::from(buf[2]),
            time: CP24Time2a::from([buf[3], buf[4], buf[5]]),
        }
    }
}

impl vstd::std_specs::convert::FromSpecImpl<DataBuffer> for M_ME_TB_1 {
    open spec fn obeys_from_spec() -> bool {
        true
    }

    open spec fn from_spec(buf: DataBuffer) -> Self {
        M_ME_TB_1::spec_from_buffer(buf)
    }
}

impl From<M_ME_TB_1> for DataBuffer {
    fn from(data: M_ME_TB_1) -> (r: DataBuffer) {
        let sva: [u8; 2] = <[u8; 2]>::from(data.sva);
        let time: [u8; 3] = <[u8; 3]>::from(data.time);
        [sva[0], sva[1], u8::from(data.qds), time[0], time[1], time[2], 0, 0, 0, 0, 0, 0]
    }
}

impl vstd::std_specs::convert::FromSpecImpl<M_ME_TB_1> for DataBuffer {
    open spec fn obeys_from_spec() -> bool {
        true
    }

    open spec fn from_spec(data: M_ME_TB_1) -> Self {
        data.spec_to_buffer()
    }
}

/// Short floating point
/// (held as the bits of the IEEE 754 single-precision number)
#[derive(Debug, Copy, Clone, Eq, PartialEq, Default, Structural)]
pub struct R32 {
    /// Value
    pub bits: u32,
}

impl R32 {
    /// Four bytes, little-endian.
    pub open spec fn spec_from_bytes(buf: [u8; 4]) -> R32 {
        R32 { bits: spec_le_join(buf[0], buf[1], buf[2], buf[3]) }
    }

    /// Four bytes, little-endian.
    pub open spec fn spec_to_bytes(self) -> [u8; 4] {
        [
            spec_le_byte(self.bits, 0),
            spec_le_byte(self.bits, 1),
            spec_le_byte(self.bits, 2),
            spec_le_byte(self.bits, 3),
        ]
    }

    /// Every value is read back from its four bytes.
    pub proof fn lemma_round_trip(self)
        ensures
            R32::spec_from_bytes(self.spec_to_bytes()) == self,
    {
        lemma_le_round_trip(self.bits, 4);
    }
}

impl From<[u8; 4]> for R32 {
    fn from(buf: [u8; 4]) -> (r: Self) {
        R32 {
            bits: (buf[0] as u32) | ((buf[1] as u32) << 8) | ((buf[2] as u32) << 16)
                | ((buf[3] as u32)
                << 24),
        }
    }
}

impl vstd::std_specs::convert::FromSpecImpl<[u8; 4]> for R32 {
    open spec fn obeys_from_spec() -> bool {
        true
    }

    open spec fn from_spec(buf: [u8; 4]) -> Self {
        R32::spec_from_bytes(buf)
    }
}

impl From<R32> for [u8; 4] {
    fn from(data: R32) -> (r: [u8; 4]) {
        [
            (data.bits & 0xff) as u8,
            ((data.bits >> 8) & 0xff) as u8,
            ((data.bits >> 16) & 0xff) as u8,
            ((data.bits >> 24) & 0xff) as u8,
        ]
    }
}

impl vstd::std_specs::convert::FromSpecImpl<R32> for [u8; 4] {
    open spec fn obeys_from_spec() -> bool {
        true
    }

    open spec fn from_spec(data: R32) -> Self {
        data.spec_to_bytes()
    }
}

/// Measured value, short floating point
#[derive(Debug, Copy, Clone, Eq, PartialEq, Default, Structural)]
pub struct M_ME_NC_1 {
    /// Short floating point
    pub r32: R32,
    /// Quality descriptor
    pub qds: QDS,
}

impl M_ME_NC_1 {
    /// What the first 5 bytes of a value buffer spell.
    pub open spec fn spec_from_buffer(buf: DataBuffer) -> M_ME_NC_1 {
        M_ME_NC_1 {
            r32: R32::spec_from_bytes([buf[0], buf[1], buf[2], buf[3]]),
            qds: QDS::spec_from_u8(buf[4]),
        }
    }

    /// The value buffer that holds this payload, zero past its bytes.
    pub open spec fn spec_to_buffer(self) -> DataBuffer {
        let r32 = self.r32.spec_to_bytes();
        [r32[0], r32[1], r32[2], r32[3], self.qds.spec_to_u8(), 0, 0, 0, 0, 0, 0, 0]
    }

    /// Every payload is read back from its value buffer.
    pub proof fn lemma_round_trip(self)
        ensures
            M_ME_NC_1::spec_from_buffer(self.spec_to_buffer()) == self,
    {
        self.r32.lemma_round_trip();
        self.qds.lemma_round_trip();
    }
}

impl From<DataBuffer> for M_ME_NC_1 {
    fn from(buf: DataBuffer) -> (r: Self) {
        M_ME_NC_1 {
            r32: R32::from([buf[0], buf[1], buf[2], buf[3]]),
            qds: QDS::from(buf[4]),
        }
    }
}

impl vstd::std_specs::convert::FromSpecImpl<DataBuffer> for M_ME_NC_1 {
    open spec fn obeys_from_spec() -> bool {
        true
    }

    open spec fn from_spec(buf: DataBuffer) -> Self {
        M_ME_NC_1::spec_from_buffer(buf)
    }
}

impl From<M_ME_NC_1> for DataBuffer {
    fn from(data: M_ME_NC_1) -> (r: DataBuffer) {
        let r32: [u8; 4] = <[u8; 4]>::from(data.r32);
        [r32[0], r32[1], r32[2], r32[3], u8::from(data.qds), 0, 0, 0, 0, 0, 0, 0]
    }
}

impl vstd::std_specs::convert::FromSpecImpl<M_ME_NC_1> for DataBuffer {
    open spec fn obeys_from_spec() -> bool {
        true
    }

    open spec fn from_spec(data: M_ME_NC_1) -> Self {
        data.spec_to_buffer()
    }
}

/// Measured value, short floating point with time tag
#[derive(Debug, Copy, Clone, Eq, PartialEq, Default, Structural)]
pub struct M_ME_TC_1 {
    /// Short floating point
    pub r32: R32,
    /// Quality descriptor
    pub qds: QDS,
    /// Time tag
    pub time: CP24Time2a,
}

impl M_ME_TC_1 {
    /// What the first 8 bytes of a value buffer spell.
    pub open spec fn spec_from_buffer(buf: DataBuffer) -> M_ME_TC_1 {
        M_ME_TC_1 {
            r32: R32::spec_from_bytes([buf[0], buf[1], buf[2], buf[3]]),
            qds: QDS::spec_from_u8(buf[4]),
            time: CP24Time2a::spec_from_bytes([buf[5], buf[6], buf[7]]),
        }
    }

    /// The value buffer that holds this payload, zero past its bytes.
    pub open spec fn spec_to_buffer(self) -> DataBuffer {
        let r32 = self.r32.spec_to_bytes();
        let time = self.time.spec_to_bytes();
        [
            r32[0],
            r32[1],
            r32[2],
            r32[3],
            self.qds.spec_to_u8(),
            time[0],
            time[1],
            time[2],
            0,
            0,
            0,
            0,
        ]
    }

    /// Whether the payload is one that reading can give: every part of it is in range.
    pub open spec fn spec_in_range(self) -> bool {
        spec_cp24_in_range(self.time)
    }

    /// A payload in range is read back from its value buffer.
    pub proof fn lemma_round_trip(self)
        requires
            self.spec_in_range(),
        ensures
            M_ME_TC_1::spec_from_buffer(self.spec_to_buffer()) == self,
    {
        self.r32.lemma_round_trip();
        self.qds.lemma_round_trip();
        lemma_cp24_round_trip(self.time);
    }
}

impl From<DataBuffer> for M_ME_TC_1 {
    fn from(buf: DataBuffer) -> (r: Self) {
        M_ME_TC_1 {
            r32: R32::from([buf[0], buf[1], buf[2], buf[3]]),
            qds: QDS::from(buf[4]),
            time: CP24Time2a::from([buf[5], buf[6], buf[7]]),
        }
    }
}

impl vstd::std_specs::convert::FromSpecImpl<DataBuffer> for M_ME_TC_1 {
    open spec fn obeys_from_spec() -> bool {
        true
    }

    open spec fn from_spec(buf: DataBuffer) -> Self {
        M_ME_TC_1::spec_from_buffer(buf)
    }
}

impl From<M_ME_TC_1> for DataBuffer {
    fn from(data: M_ME_TC_1) -> (r: DataBuffer) {
        let r32: [u8; 4] = <[u8; 4]>::from(data.r32);
        let time: [u8; 3] = <[u8; 3]>::from(data.time);
        [r32[0], r32[1], r32[2], r32[3], u8::from(data.qds), time[0], time[1], time[2], 0, 0, 0, 0]
    }
}

impl vstd::std_specs::convert::FromSpecImpl<M_ME_TC_1> for DataBuffer {
    open spec fn obeys_from_spec() -> bool {
        true
    }

    open spec fn from_spec(data: M_ME_TC_1) -> Self {
        data.spec_to_buffer()
    }
}

/// Sequence quality descriptor
#[derive(Debug, Copy, Clone, Eq, PartialEq, Default, Structural)]
pub struct SeqQD {
    /// Invalid
    pub iv: bool,
    /// Adjusted flag
    pub ca: bool,
    /// Carry flag
    pub cy: bool,
    /// Sequence
    pub seq: u8,
}

impl SeqQD {
    /// Bits 7 to 5: invalid, counter adjusted, carry. Bits 0 to 4: the sequence number.
    pub open spec fn spec_from_u8(v: u8) -> SeqQD {
        SeqQD {
            iv: v & 0b1000_0000 != 0,
            ca: v & 0b0100_0000 != 0,
            cy: v & 0b0010_0000 != 0,
            seq: v & 0b0001_1111,
        }
    }

    /// The byte that holds this value.
    pub open spec fn spec_to_u8(self) -> u8 {
        spec_flag(self.iv, 0b1000_0000) | spec_flag(self.ca, 0b0100_0000)
            | spec_flag(self.cy, 0b0010_0000) | self.seq
    }

    proof fn lemma_bits(iv: bool, ca: bool, cy: bool, seq: u8)
        by (bit_vector)
        requires
            seq < 32,
        ensures
            ({
                let v = spec_flag(iv, 0b1000_0000) | spec_flag(ca, 0b0100_0000)
                    | spec_flag(cy, 0b0010_0000) | seq;
                &&& (v & 0b1000_0000 != 0) == iv
                &&& (v & 0b0100_0000 != 0) == ca
                &&& (v & 0b0010_0000 != 0) == cy
                &&& (v & 0b0001_1111) == seq
            }),
    {
    }

    /// Whether the value is one that reading can give: the sequence number fits in five bits.
    pub open spec fn spec_in_range(self) -> bool {
        self.seq < 32
    }

    /// A value in range is read back from its byte.
    pub proof fn lemma_round_trip(self)
        requires
            self.spec_in_range(),
        ensures
            SeqQD::spec_from_u8(self.spec_to_u8()) == self,
    {
        SeqQD::lemma_bits(self.iv, self.ca, self.cy, self.seq);
    }
}

impl From<u8> for SeqQD {
    fn from(v: u8) -> (r: Self) {
        SeqQD {
            iv: v & 0b1000_0000 != 0,
            ca: v & 0b0100_0000 != 0,
            cy: v & 0b0010_0000 != 0,
            seq: v & 0b0001_1111,
        }
    }
}

impl vstd::std_specs::convert::FromSpecImpl<u8> for SeqQD {
    open spec fn obeys_from_spec() -> bool {
        true
    }

    open spec fn from_spec(v: u8) -> Self {
        SeqQD::spec_from_u8(v)
    }
}

impl From<SeqQD> for u8 {
    fn from(data: SeqQD) -> (r: u8) {
        flag(data.iv, 0b1000_0000) | flag(data.ca, 0b0100_0000) | flag(data.cy, 0b0010_0000)
            | data.seq
    }
}

impl vstd::std_specs::convert::FromSpecImpl<SeqQD> for u8 {
    open spec fn obeys_from_spec() -> bool {
        true
    }

    open spec fn from_spec(data: SeqQD) -> Self {
        data.spec_to_u8()
    }
}

/// Binary counter reading
#[derive(Debug, Copy, Clone, Eq, PartialEq, Default, Structural)]
pub struct BCR {
    /// Value
    pub value: u32,
}

impl BCR {
    /// Four bytes, little-endian.
    pub open spec fn spec_from_bytes(buf: [u8; 4]) -> BCR {
        BCR { value: spec_le_join(buf[0], buf[1], buf[2], buf[3]) }
    }

    /// Four bytes, little-endian.
    pub open spec fn spec_to_bytes(self) -> [u8; 4] {
        [
            spec_le_byte(self.value, 0),
            spec_le_byte(self.value, 1),
            spec_le_byte(self.value, 2),
            spec_le_byte(self.value, 3),
        ]
    }

    /// Every value is read back from its four bytes.
    pub proof fn lemma_round_trip(self)
        ensures
            BCR::spec_from_bytes(self.spec_to_bytes()) == self,
    {
        lemma_le_round_trip(self.value, 4);
    }
}

impl From<[u8; 4]> for BCR {
    fn from(buf: [u8; 4]) -> (r: Self) {
        BCR {
            value: (buf[0] as u32) | ((buf[1] as u32) << 8) | ((buf[2] as u32) << 16)
                | ((buf[3] as u32)
                << 24),
        }
    }
}

impl vstd::std_specs::convert::FromSpecImpl<[u8; 4]> for BCR {
    open spec fn obeys_from_spec() -> bool {
        true
    }

    open spec fn from_spec(buf: [u8; 4]) -> Self {
        BCR::spec_from_bytes(buf)
    }
}

impl From<BCR> for [u8; 4] {
    fn from(data: BCR) -> (r: [u8; 4]) {
        [
            (data.value & 0xff) as u8,
            ((data.value >> 8) & 0xff) as u8,
            ((data.value >> 16) & 0xff) as u8,
            ((data.value >> 24) & 0xff) as u8,
        ]
    }
}

impl vstd::std_specs::convert::FromSpecImpl<BCR> for [u8; 4] {
    open spec fn obeys_from_spec() -> bool {
        true
    }

    open spec fn from_spec(data: BCR) -> Self {
        data.spec_to_bytes()
    }
}

/// Integrated total
#[derive(Debug, Copy, Clone, Eq, PartialEq, Default, Structural)]
pub struct M_IT_NA_1 {
    /// Binary counter reading
    pub bcr: BCR,
    /// Sequence quality descriptor
    pub seq_qd: SeqQD,
}

impl M_IT_NA_1 {
    /// What the first 5 bytes of a value buffer spell.
    pub open spec fn spec_from_buffer(buf: DataBuffer) -> M_IT_NA_1 {
        M_IT_NA_1 {
            bcr: BCR::spec_from_bytes([buf[0], buf[1], buf[2], buf[3]]),
            seq_qd: SeqQD::spec_from_u8(buf[4]),
        }
    }

    /// The value buffer that holds this payload, zero past its bytes.
    pub open spec fn spec_to_buffer(self) -> DataBuffer {
        let bcr = self.bcr.spec_to_bytes();
        [bcr[0], bcr[1], bcr[2], bcr[3], self.seq_qd.spec_to_u8(), 0, 0, 0, 0, 0, 0, 0]
    }

    /// Whether the payload is one that reading can give: every part of it is in range.
    pub open spec fn spec_in_range(self) -> bool {
        self.seq_qd.spec_in_range()
    }

    /// A payload in range is read back from its value buffer.
    pub proof fn lemma_round_trip(self)
        requires
            self.spec_in_range(),
        ensures
            M_IT_NA_1::spec_from_buffer(self.spec_to_buffer()) == self,
    {
        self.bcr.lemma_round_trip();
        self.seq_qd.lemma_round_trip();
    }
}

impl From<DataBuffer> for M_IT_NA_1 {
    fn from(buf: DataBuffer) -> (r: Self) {
        M_IT_NA_1 {
            bcr: BCR::from([buf[0], buf[1], buf[2], buf[3]]),
            seq_qd: SeqQD::from(buf[4]),
        }
    }
}

impl vstd::std_specs::convert::FromSpecImpl<DataBuffer> for M_IT_NA_1 {
    open spec fn obeys_from_spec() -> bool {
        true
    }

    open spec fn from_spec(buf: DataBuffer) -> Self {
        M_IT_NA_1::spec_from_buffer(buf)
    }
}

impl From<M_IT_NA_1> for DataBuffer {
    fn from(data: M_IT_NA_1) -> (r: DataBuffer) {
        let bcr: [u8; 4] = <[u8; 4]>::from(data.bcr);
        [bcr[0], bcr[1], bcr[2], bcr[3], u8::from(data.seq_qd), 0, 0, 0, 0, 0, 0, 0]
    }
}

impl vstd::std_specs::convert::FromSpecImpl<M_IT_NA_1> for DataBuffer {
    open spec fn obeys_from_spec() -> bool {
        true
    }

    open spec fn from_spec(data: M_IT_NA_1) -> Self {
        data.spec_to_buffer()
    }
}

/// Integrated total with time tag
#[derive(Debug, Copy, Clone, Eq, PartialEq, Default, Structural)]
pub struct M_IT_TA_1 {
    /// Binary counter reading
    pub bcr: BCR,
    /// Sequence quality descriptor
    pub seq_qd: SeqQD,
    /// Time tag
    pub time: CP24Time2a,
}

impl M_IT_TA_1 {
    /// What the first 8 bytes of a value buffer spell.
    pub open spec fn spec_from_buffer(buf: DataBuffer) -> M_IT_TA_1 {
        M_IT_TA_1 {
            bcr: BCR::spec_from_bytes([buf[0], buf[1], buf[2], buf[3]]),
            seq_qd: SeqQD::spec_from_u8(buf[4]),
            time: CP24Time2a::spec_from_bytes([buf[5], buf[6], buf[7]]),
        }
    }

    /// The value buffer that holds this payload, zero past its bytes.
    pub open spec fn spec_to_buffer(self) -> DataBuffer {
        let bcr = self.bcr.spec_to_bytes();
        let time = self.time.spec_to_bytes();
        [
            bcr[0],
            bcr[1],
            bcr[2],
            bcr[3],
            self.seq_qd.spec_to_u8(),
            time[0],
            time[1],
            time[2],
            0,
            0,
            0,
            0,
        ]
    }

    /// Whether the payload is one that reading can give: every part of it is in range.
    pub open spec fn spec_in_range(self) -> bool {
        self.seq_qd.spec_in_range() && spec_cp24_in_range(self.time)
    }

    /// A payload in range is read back from its value buffer.
    pub proof fn lemma_round_trip(self)
        requires
            self.spec_in_range(),
        ensures
            M_IT_TA_1::spec_from_buffer(self.spec_to_buffer()) == self,
    {
        self.bcr.lemma_round_trip();
        self.seq_qd.lemma_round_trip();
        lemma_cp24_round_trip(self.time);
    }
}

impl From<DataBuffer> for M_IT_TA_1 {
    fn from(buf: DataBuffer) -> (r: Self) {
        M_IT_TA_1 {
            bcr: BCR::from([buf[0], buf[1], buf[2], buf[3]]),
            seq_qd: SeqQD::from(buf[4]),
            time: CP24Time2a::from([buf[5], buf[6], buf[7]]),
        }
    }
}

impl vstd::std_specs::convert::FromSpecImpl<DataBuffer> for M_IT_TA_1 {
    open spec fn obeys_from_spec() -> bool {
        true
    }

    open spec fn from_spec(buf: DataBuffer) -> Self {
        M_IT_TA_1::spec_from_buffer(buf)
    }
}

impl From<M_IT_TA_1> for DataBuffer {
    fn from(data: M_IT_TA_1) -> (r: DataBuffer) {
        let bcr: [u8; 4] = <[u8; 4]>::from(data.bcr);
        let time: [u8; 3] = <[u8; 3]>::from(data.time);
        [
            bcr[0],
            bcr[1],
            bcr[2],
            bcr[3],
            u8::from(data.seq_qd),
            time[0],
            time[1],
            time[2],
            0,
            0,
            0,
            0,
        ]
    }
}

impl vstd::std_specs::convert::FromSpecImpl<M_IT_TA_1> for DataBuffer {
    open spec fn obeys_from_spec() -> bool {
        true
    }

    open spec fn from_spec(data: M_IT_TA_1) -> Self {
        data.spec_to_buffer()
    }
}

/// Single event of protection equipment
#[derive(Debug, Copy, Clone, Eq, PartialEq, Default, Structural)]
pub struct SEP {
    /// Invalid
    pub iv: bool,
    /// Not topical
    pub nt: bool,
    /// Substituted
    pub sb: bool,
    /// Blocked
    pub bl: bool,
    /// Elapsed flag
    pub ei: bool,
    /// Event state
    pub es: EventState,
}

impl SEP {
    /// Bits 7 to 3: invalid, not topical, substituted, blocked, elapsed time invalid. Bits 0 and 1:
    /// the event state.
    pub open spec fn spec_from_u8(v: u8) -> SEP {
        SEP {
            iv: v & 0b1000_0000 != 0,
            nt: v & 0b0100_0000 != 0,
            sb: v & 0b0010_0000 != 0,
            bl: v & 0b0001_0000 != 0,
            ei: v & 0b0000_1000 != 0,
            es: EventState::spec_from_u8(v & 0b0000_0011),
        }
    }

    /// The byte that holds this value.
    pub open spec fn spec_to_u8(self) -> u8 {
        spec_flag(self.iv, 0b1000_0000) | spec_flag(self.nt, 0b0100_0000)
            | spec_flag(self.sb, 0b0010_0000) | spec_flag(self.bl, 0b0001_0000)
            | spec_flag(self.ei, 0b0000_1000) | self.es.spec_to_u8()
    }

    proof fn lemma_bits(iv: bool, nt: bool, sb: bool, bl: bool, ei: bool, es: u8)
        by (bit_vector)
        requires
            es <= 3,
        ensures
            ({
                let v = spec_flag(iv, 0b1000_0000) | spec_flag(nt, 0b0100_0000)
                    | spec_flag(sb, 0b0010_0000) | spec_flag(bl, 0b0001_0000)
                    | spec_flag(ei, 0b0000_1000) | es;
                &&& (v & 0b1000_0000 != 0) == iv
                &&& (v & 0b0100_0000 != 0) == nt
                &&& (v & 0b0010_0000 != 0) == sb
                &&& (v & 0b0001_0000 != 0) == bl
                &&& (v & 0b0000_1000 != 0) == ei
                &&& (v & 0b0000_0011) == es
            }),
    {
    }

    /// Every value is read back from its byte.
    pub proof fn lemma_round_trip(self)
        ensures
            SEP::spec_from_u8(self.spec_to_u8()) == self,
    {
        self.es.lemma_round_trip();
        SEP::lemma_bits(self.iv, self.nt, self.sb, self.bl, self.ei, self.es.spec_to_u8());
    }
}

impl From<u8> for SEP {
    fn from(v: u8) -> (r: Self) {
        SEP {
            iv: v & 0b1000_0000 != 0,
            nt: v & 0b0100_0000 != 0,
            sb: v & 0b0010_0000 != 0,
            bl: v & 0b0001_0000 != 0,
            ei: v & 0b0000_1000 != 0,
            es: EventState::from(v & 0b0000_0011),
        }
    }
}

impl vstd::std_specs::convert::FromSpecImpl<u8> for SEP {
    open spec fn obeys_from_spec() -> bool {
        true
    }

    open spec fn from_spec(v: u8) -> Self {
        SEP::spec_from_u8(v)
    }
}

impl From<SEP> for u8 {
    fn from(data: SEP) -> (r: u8) {
        flag(data.iv, 0b1000_0000) | flag(data.nt, 0b0100_0000) | flag(data.sb, 0b0010_0000)
            | flag(data.bl, 0b0001_0000) | flag(data.ei, 0b0000_1000) | data.es.code()
    }
}

impl vstd::std_specs::convert::FromSpecImpl<SEP> for u8 {
    open spec fn obeys_from_spec() -> bool {
        true
    }

    open spec fn from_spec(data: SEP) -> Self {
        data.spec_to_u8()
    }
}

/// Event of protection equipment with time tag
#[derive(Debug, Copy, Clone, Eq, PartialEq, Default, Structural)]
pub struct M_EP_TA_1 {
    /// Single event of protection equipment
    pub sep: SEP,
    /// Elapsed time
    pub elapsed: CP16Time2a,
    /// Time tag
    pub time: CP24Time2a,
}

impl M_EP_TA_1 {
    /// What the first 6 bytes of a value buffer spell.
    pub open spec fn spec_from_buffer(buf: DataBuffer) -> M_EP_TA_1 {
        M_EP_TA_1 {
            sep: SEP::spec_from_u8(buf[0]),
            elapsed: CP16Time2a::spec_from_bytes([buf[1], buf[2]]),
            time: CP24Time2a::spec_from_bytes([buf[3], buf[4], buf[5]]),
        }
    }

    /// The value buffer that holds this payload, zero past its bytes.
    pub open spec fn spec_to_buffer(self) -> DataBuffer {
        let elapsed = self.elapsed.spec_to_bytes();
        let time = self.time.spec_to_bytes();
        [self.sep.spec_to_u8(), elapsed[0], elapsed[1], time[0], time[1], time[2], 0, 0, 0, 0, 0, 0]
    }

    /// Whether the payload is one that reading can give: every part of it is in range.
    pub open spec fn spec_in_range(self) -> bool {
        spec_cp24_in_range(self.time)
    }

    /// A payload in range is read back from its value buffer.
    pub proof fn lemma_round_trip(self)
        requires
            self.spec_in_range(),
        ensures
            M_EP_TA_1::spec_from_buffer(self.spec_to_buffer()) == self,
    {
        self.sep.lemma_round_trip();
        lemma_cp16_round_trip(self.elapsed);
        lemma_cp24_round_trip(self.time);
    }
}

impl From<DataBuffer> for M_EP_TA_1 {
    fn from(buf: DataBuffer) -> (r: Self) {
        M_EP_TA_1 {
            sep: SEP::from(buf[0]),
            elapsed: CP16Time2a::from([buf[1], buf[2]]),
            time: CP24Time2a::from([buf[3], buf[4], buf[5]]),
        }
    }
}

impl vstd::std_specs::convert::FromSpecImpl<DataBuffer> for M_EP_TA_1 {
    open spec fn obeys_from_spec() -> bool {
        true
    }

    open spec fn from_spec(buf: DataBuffer) -> Self {
        M_EP_TA_1::spec_from_buffer(buf)
    }
}

impl From<M_EP_TA_1> for DataBuffer {
    fn from(data: M_EP_TA_1) -> (r: DataBuffer) {
        let elapsed: [u8; 2] = <[u8; 2]>::from(data.elapsed);
        let time: [u8; 3] = <[u8; 3]>::from(data.time);
        [u8::from(data.sep), elapsed[0], elapsed[1], time[0], time[1], time[2], 0, 0, 0, 0, 0, 0]
    }
}

impl vstd::std_specs::convert::FromSpecImpl<M_EP_TA_1> for DataBuffer {
    open spec fn obeys_from_spec() -> bool {
        true
    }

    open spec fn from_spec(data: M_EP_TA_1) -> Self {
        data.spec_to_buffer()
    }
}

/// Start events of protection equipment
#[derive(Debug, Copy, Clone, Eq, PartialEq, Default, Structural)]
pub struct StartEP {
    /// SRD
    pub srd: bool,
    /// SIE
    pub sie: bool,
    /// SL3
    pub sl3: bool,
    /// SL2
    pub sl2: bool,
    /// SL1
    pub sl1: bool,
    /// GS
    pub gs: bool,
}

impl StartEP {
    /// One flag per bit, from bit 5 down to bit 0.
    pub open spec fn spec_from_u8(v: u8) -> StartEP {
        StartEP {
            srd: v & 0b0010_0000 != 0,
            sie: v & 0b0001_0000 != 0,
            sl3: v & 0b0000_1000 != 0,
            sl2: v & 0b0000_0100 != 0,
            sl1: v & 0b0000_0010 != 0,
            gs: v & 0b0000_0001 != 0,
        }
    }

    /// The byte that holds this value.
    pub open spec fn spec_to_u8(self) -> u8 {
        spec_flag(self.srd, 0b0010_0000) | spec_flag(self.sie, 0b0001_0000)
            | spec_flag(self.sl3, 0b0000_1000) | spec_flag(self.sl2, 0b0000_0100)
            | spec_flag(self.sl1, 0b0000_0010) | spec_flag(self.gs, 0b0000_0001)
    }

    proof fn lemma_bits(srd: bool, sie: bool, sl3: bool, sl2: bool, sl1: bool, gs: bool)
        by (bit_vector)
        ensures
            ({
                let v = spec_flag(srd, 0b0010_0000) | spec_flag(sie, 0b0001_0000)
                    | spec_flag(sl3, 0b0000_1000) | spec_flag(sl2, 0b0000_0100)
                    | spec_flag(sl1, 0b0000_0010) | spec_flag(gs, 0b0000_0001);
                &&& (v & 0b0010_0000 != 0) == srd
                &&& (v & 0b0001_0000 != 0) == sie
                &&& (v & 0b0000_1000 != 0) == sl3
                &&& (v & 0b0000_0100 != 0) == sl2
                &&& (v & 0b0000_0010 != 0) == sl1
                &&& (v & 0b0000_0001 != 0) == gs
            }),
    {
    }

    /// Every value is read back from its byte.
    pub proof fn lemma_round_trip(self)
        ensures
            StartEP::spec_from_u8(self.spec_to_u8()) == self,
    {
        StartEP::lemma_bits(self.srd, self.sie, self.sl3, self.sl2, self.sl1, self.gs);
    }
}

impl From<u8> for StartEP {
    fn from(v: u8) -> (r: Self) {
        StartEP {
            srd: v & 0b0010_0000 != 0,
            sie: v & 0b0001_0000 != 0,
            sl3: v & 0b0000_1000 != 0,
            sl2: v & 0b0000_0100 != 0,
            sl1: v & 0b0000_0010 != 0,
            gs: v & 0b0000_0001 != 0,
        }
    }
}

impl vstd::std_specs::convert::FromSpecImpl<u8> for StartEP {
    open spec fn obeys_from_spec() -> bool {
        true
    }

    open spec fn from_spec(v: u8) -> Self {
        StartEP::spec_from_u8(v)
    }
}

impl From<StartEP> for u8 {
    fn from(data: StartEP) -> (r: u8) {
        flag(data.srd, 0b0010_0000) | flag(data.sie, 0b0001_0000) | flag(data.sl3, 0b0000_1000)
            | flag(data.sl2, 0b0000_0100) | flag(data.sl1, 0b0000_0010)
            | flag(data.gs, 0b0000_0001)
    }
}

impl vstd::std_specs::convert::FromSpecImpl<StartEP> for u8 {
    open spec fn obeys_from_spec() -> bool {
        true
    }

    open spec fn from_spec(data: StartEP) -> Self {
        data.spec_to_u8()
    }
}

/// Quality descriptor of protection equipment
#[derive(Debug, Copy, Clone, Eq, PartialEq, Default, Structural)]
pub struct QDP {
    /// Invalid
    pub iv: bool,
    /// Not topical
    pub nt: bool,
    /// Substituted
    pub sb: bool,
    /// Blocked
    pub bl: bool,
    /// Elapsed flag
    pub ei: bool,
}

impl QDP {
    /// Bits 7 to 3: invalid, not topical, substituted, blocked, elapsed time invalid.
    pub open spec fn spec_from_u8(v: u8) -> QDP {
        QDP {
            iv: v & 0b1000_0000 != 0,
            nt: v & 0b0100_0000 != 0,
            sb: v & 0b0010_0000 != 0,
            bl: v & 0b0001_0000 != 0,
            ei: v & 0b0000_1000 != 0,
        }
    }

    /// The byte that holds this value.
    pub open spec fn spec_to_u8(self) -> u8 {
        spec_flag(self.iv, 0b1000_0000) | spec_flag(self.nt, 0b0100_0000)
            | spec_flag(self.sb, 0b0010_0000) | spec_flag(self.bl, 0b0001_0000)
            | spec_flag(self.ei, 0b0000_1000)
    }

    proof fn lemma_bits(iv: bool, nt: bool, sb: bool, bl: bool, ei: bool)
        by (bit_vector)
        ensures
            ({
                let v = spec_flag(iv, 0b1000_0000) | spec_flag(nt, 0b0100_0000)
                    | spec_flag(sb, 0b0010_0000) | spec_flag(bl, 0b0001_0000)
                    | spec_flag(ei, 0b0000_1000);
                &&& (v & 0b1000_0000 != 0) == iv
                &&& (v & 0b0100_0000 != 0) == nt
                &&& (v & 0b0010_0000 != 0) == sb
                &&& (v & 0b0001_0000 != 0) == bl
                &&& (v & 0b0000_1000 != 0) == ei
            }),
    {
    }

    /// Every value is read back from its byte.
    pub proof fn lemma_round_trip(self)
        ensures
            QDP::spec_from_u8(self.spec_to_u8()) == self,
    {
        QDP::lemma_bits(self.iv, self.nt, self.sb, self.bl, self.ei);
    }
}

impl From<u8> for QDP {
    fn from(v: u8) -> (r: Self) {
        QDP {
            iv: v & 0b1000_0000 != 0,
            nt: v & 0b0100_0000 != 0,
            sb: v & 0b0010_0000 != 0,
            bl: v & 0b0001_0000 != 0,
            ei: v & 0b0000_1000 != 0,
        }
    }
}

impl vstd::std_specs::convert::FromSpecImpl<u8> for QDP {
    open spec fn obeys_from_spec() -> bool {
        true
    }

    open spec fn from_spec(v: u8) -> Self {
        QDP::spec_from_u8(v)
    }
}

impl From<QDP> for u8 {
    fn from(data: QDP) -> (r: u8) {
        flag(data.iv, 0b1000_0000) | flag(data.nt, 0b0100_0000) | flag(data.sb, 0b0010_0000)
            | flag(data.bl, 0b0001_0000) | flag(data.ei, 0b0000_1000)
    }
}

impl vstd::std_specs::convert::FromSpecImpl<QDP> for u8 {
    open spec fn obeys_from_spec() -> bool {
        true
    }

    open spec fn from_spec(data: QDP) -> Self {
        data.spec_to_u8()
    }
}

/// Packed start events of protection equipment with time tag
#[derive(Debug, Copy, Clone, Eq, PartialEq, Default, Structural)]
pub struct M_EP_TB_1 {
    /// Start events of protection equipment
    pub start_ep: StartEP,
    /// Quality descriptor of protection equipment
    pub qdp: QDP,
    /// Relay duration time
    pub relay_duration: CP16Time2a,
    /// Time tag
    pub time: CP24Time2a,
}

impl M_EP_TB_1 {
    /// What the first 7 bytes of a value buffer spell.
    pub open spec fn spec_from_buffer(buf: DataBuffer) -> M_EP_TB_1 {
        M_EP_TB_1 {
            start_ep: StartEP::spec_from_u8(buf[0]),
            qdp: QDP::spec_from_u8(buf[1]),
            relay_duration: CP16Time2a::spec_from_bytes([buf[2], buf[3]]),
            time: CP24Time2a::spec_from_bytes([buf[4], buf[5], buf[6]]),
        }
    }

    /// The value buffer that holds this payload, zero past its bytes.
    pub open spec fn spec_to_buffer(self) -> DataBuffer {
        let relay_duration = self.relay_duration.spec_to_bytes();
        let time = self.time.spec_to_bytes();
        [
            self.start_ep.spec_to_u8(),
            self.qdp.spec_to_u8(),
            relay_duration[0],
            relay_duration[1],
            time[0],
            time[1],
            time[2],
            0,
            0,
            0,
            0,
            0,
        ]
    }

    /// Whether the payload is one that reading can give: every part of it is in range.
    pub open spec fn spec_in_range(self) -> bool {
        spec_cp24_in_range(self.time)
    }

    /// A payload in range is read back from its value buffer.
    pub proof fn lemma_round_trip(self)
        requires
            self.spec_in_range(),
        ensures
            M_EP_TB_1::spec_from_buffer(self.spec_to_buffer()) == self,
    {
        self.start_ep.lemma_round_trip();
        self.qdp.lemma_round_trip();
        lemma_cp16_round_trip(self.relay_duration);
        lemma_cp24_round_trip(self.time);
    }
}

impl From<DataBuffer> for M_EP_TB_1 {
    fn from(buf: DataBuffer) -> (r: Self) {
        M_EP_TB_1 {
            start_ep: StartEP::from(buf[0]),
            qdp: QDP::from(buf[1]),
            relay_duration: CP16Time2a::from([buf[2], buf[3]]),
            time: CP24Time2a::from([buf[4], buf[5], buf[6]]),
        }
    }
}

impl vstd::std_specs::convert::FromSpecImpl<DataBuffer> for M_EP_TB_1 {
    open spec fn obeys_from_spec() -> bool {
        true
    }

    open spec fn from_spec(buf: DataBuffer) -> Self {
        M_EP_TB_1::spec_from_buffer(buf)
    }
}

impl From<M_EP_TB_1> for DataBuffer {
    fn from(data: M_EP_TB_1) -> (r: DataBuffer) {
        let relay_duration: [u8; 2] = <[u8; 2]>::from(data.relay_duration);
        let time: [u8; 3] = <[u8; 3]>::from(data.time);
        [
            u8::from(data.start_ep),
            u8::from(data.qdp),
            relay_duration[0],
            relay_duration[1],
            time[0],
            time[1],
            time[2],
            0,
            0,
            0,
            0,
            0,
        ]
    }
}

impl vstd::std_specs::convert::FromSpecImpl<M_EP_TB_1> for DataBuffer {
    open spec fn obeys_from_spec() -> bool {
        true
    }

    open spec fn from_spec(data: M_EP_TB_1) -> Self {
        data.spec_to_buffer()
    }
}

/// Output circuit information
#[derive(Debug, Copy, Clone, Eq, PartialEq, Default, Structural)]
pub struct OCI {
    /// CL3
    pub cl3: bool,
    /// CL2
    pub cl2: bool,
    /// CL1
    pub cl1: bool,
    /// GC
    pub gc: bool,
}

impl OCI {
    /// One flag per bit, from bit 3 down to bit 0.
    pub open spec fn spec_from_u8(v: u8) -> OCI {
        OCI {
            cl3: v & 0b0000_1000 != 0,
            cl2: v & 0b0000_0100 != 0,
            cl1: v & 0b0000_0010 != 0,
            gc: v & 0b0000_0001 != 0,
        }
    }

    /// The byte that holds this value.
    pub open spec fn spec_to_u8(self) -> u8 {
        spec_flag(self.cl3, 0b0000_1000) | spec_flag(self.cl2, 0b0000_0100)
            | spec_flag(self.cl1, 0b0000_0010) | spec_flag(self.gc, 0b0000_0001)
    }

    proof fn lemma_bits(cl3: bool, cl2: bool, cl1: bool, gc: bool)
        by (bit_vector)
        ensures
            ({
                let v = spec_flag(cl3, 0b0000_1000) | spec_flag(cl2, 0b0000_0100)
                    | spec_flag(cl1, 0b0000_0010) | spec_flag(gc, 0b0000_0001);
                &&& (v & 0b0000_1000 != 0) == cl3
                &&& (v & 0b0000_0100 != 0) == cl2
                &&& (v & 0b0000_0010 != 0) == cl1
                &&& (v & 0b0000_0001 != 0) == gc
            }),
    {
    }

    /// Every value is read back from its byte.
    pub proof fn lemma_round_trip(self)
        ensures
            OCI::spec_from_u8(self.spec_to_u8()) == self,
    {
        OCI::lemma_bits(self.cl3, self.cl2, self.cl1, self.gc);
    }
}

impl From<u8> for OCI {
    fn from(v: u8) -> (r: Self) {
        OCI {
            cl3: v & 0b0000_1000 != 0,
            cl2: v & 0b0000_0100 != 0,
            cl1: v & 0b0000_0010 != 0,
            gc: v & 0b0000_0001 != 0,
        }
    }
}

impl vstd::std_specs::convert::FromSpecImpl<u8> for OCI {
    open spec fn obeys_from_spec() -> bool {
        true
    }

    open spec fn from_spec(v: u8) -> Self {
        OCI::spec_from_u8(v)
    }
}

impl From<OCI> for u8 {
    fn from(data: OCI) -> (r: u8) {
        flag(data.cl3, 0b0000_1000) | flag(data.cl2, 0b0000_0100) | flag(data.cl1, 0b0000_0010)
            | flag(data.gc, 0b0000_0001)
    }
}

impl vstd::std_specs::convert::FromSpecImpl<OCI> for u8 {
    open spec fn obeys_from_spec() -> bool {
        true
    }

    open spec fn from_spec(data: OCI) -> Self {
        data.spec_to_u8()
    }
}

/// Packed output circuit information with time tag
#[derive(Debug, Copy, Clone, Eq, PartialEq, Default, Structural)]
pub struct M_EP_TC_1 {
    /// Output circuit information
    pub oci: OCI,
    /// Quality descriptor of protection equipment
    pub qdp: QDP,
    /// Relay operation time
    pub relay_op_time: CP16Time2a,
    /// Time tag
    pub time: CP24Time2a,
}

impl M_EP_TC_1 {
    /// What the first 7 bytes of a value buffer spell.
    pub open spec fn spec_from_buffer(buf: DataBuffer) -> M_EP_TC_1 {
        M_EP_TC_1 {
            oci: OCI::spec_from_u8(buf[0]),
            qdp: QDP::spec_from_u8(buf[1]),
            relay_op_time: CP16Time2a::spec_from_bytes([buf[2], buf[3]]),
            time: CP24Time2a::spec_from_bytes([buf[4], buf[5], buf[6]]),
        }
    }

    /// The value buffer that holds this payload, zero past its bytes.
    pub open spec fn spec_to_buffer(self) -> DataBuffer {
        let relay_op_time = self.relay_op_time.spec_to_bytes();
        let time = self.time.spec_to_bytes();
        [
            self.oci.spec_to_u8(),
            self.qdp.spec_to_u8(),
            relay_op_time[0],
            relay_op_time[1],
            time[0],
            time[1],
            time[2],
            0,
            0,
            0,
            0,
            0,
        ]
    }

    /// Whether the payload is one that reading can give: every part of it is in range.
    pub open spec fn spec_in_range(self) -> bool {
        spec_cp24_in_range(self.time)
    }

    /// A payload in range is read back from its value buffer.
    pub proof fn lemma_round_trip(self)
        requires
            self.spec_in_range(),
        ensures
            M_EP_TC_1::spec_from_buffer(self.spec_to_buffer()) == self,
    {
        self.oci.lemma_round_trip();
        self.qdp.lemma_round_trip();
        lemma_cp16_round_trip(self.relay_op_time);
        lemma_cp24_round_trip(self.time);
    }
}

impl From<DataBuffer> for M_EP_TC_1 {
    fn from(buf: DataBuffer) -> (r: Self) {
        M_EP_TC_1 {
            oci: OCI::from(buf[0]),
            qdp: QDP::from(buf[1]),
            relay_op_time: CP16Time2a::from([buf[2], buf[3]]),
            time: CP24Time2a::from([buf[4], buf[5], buf[6]]),
        }
    }
}

impl vstd::std_specs::convert::FromSpecImpl<DataBuffer> for M_EP_TC_1 {
    open spec fn obeys_from_spec() -> bool {
        true
    }

    open spec fn from_spec(buf: DataBuffer) -> Self {
        M_EP_TC_1::spec_from_buffer(buf)
    }
}

impl From<M_EP_TC_1> for DataBuffer {
    fn from(data: M_EP_TC_1) -> (r: DataBuffer) {
        let relay_op_time: [u8; 2] = <[u8; 2]>::from(data.relay_op_time);
        let time: [u8; 3] = <[u8; 3]>::from(data.time);
        [
            u8::from(data.oci),
            u8::from(data.qdp),
            relay_op_time[0],
            relay_op_time[1],
            time[0],
            time[1],
            time[2],
            0,
            0,
            0,
            0,
            0,
        ]
    }
}

impl vstd::std_specs::convert::FromSpecImpl<M_EP_TC_1> for DataBuffer {
    open spec fn obeys_from_spec() -> bool {
        true
    }

    open spec fn from_spec(data: M_EP_TC_1) -> Self {
        data.spec_to_buffer()
    }
}

/// Status change detection
#[derive(Debug, Copy, Clone, Eq, PartialEq, Default, Structural)]
pub struct SCD {
    /// Value
    pub value: u32,
}

impl SCD {
    /// Four bytes, little-endian.
    pub open spec fn spec_from_bytes(buf: [u8; 4]) -> SCD {
        SCD { value: spec_le_join(buf[0], buf[1], buf[2], buf[3]) }
    }

    /// Four bytes, little-endian.
    pub open spec fn spec_to_bytes(self) -> [u8; 4] {
        [
            spec_le_byte(self.value, 0),
            spec_le_byte(self.value, 1),
            spec_le_byte(self.value, 2),
            spec_le_byte(self.value, 3),
        ]
    }

    /// Every value is read back from its four bytes.
    pub proof fn lemma_round_trip(self)
        ensures
            SCD::spec_from_bytes(self.spec_to_bytes()) == self,
    {
        lemma_le_round_trip(self.value, 4);
    }
}

impl From<[u8; 4]> for SCD {
    fn from(buf: [u8; 4]) -> (r: Self) {
        SCD {
            value: (buf[0] as u32) | ((buf[1] as u32) << 8) | ((buf[2] as u32) << 16)
                | ((buf[3] as u32)
                << 24),
        }
    }
}

impl vstd::std_specs::convert::FromSpecImpl<[u8; 4]> for SCD {
    open spec fn obeys_from_spec() -> bool {
        true
    }

    open spec fn from_spec(buf: [u8; 4]) -> Self {
        SCD::spec_from_bytes(buf)
    }
}

impl From<SCD> for [u8; 4] {
    fn from(data: SCD) -> (r: [u8; 4]) {
        [
            (data.value & 0xff) as u8,
            ((data.value >> 8) & 0xff) as u8,
            ((data.value >> 16) & 0xff) as u8,
            ((data.value >> 24) & 0xff) as u8,
        ]
    }
}

impl vstd::std_specs::convert::FromSpecImpl<SCD> for [u8; 4] {
    open spec fn obeys_from_spec() -> bool {
        true
    }

    open spec fn from_spec(data: SCD) -> Self {
        data.spec_to_bytes()
    }
}

/// Packed single point information with status change detection
#[derive(Debug, Copy, Clone, Eq, PartialEq, Default, Structural)]
pub struct M_PS_NA_1 {
    /// Status change detection
    pub scd: SCD,
    /// Quality descriptor
    pub qds: QDS,
}

impl M_PS_NA_1 {
    /// What the first 5 bytes of a value buffer spell.
    pub open spec fn spec_from_buffer(buf: DataBuffer) -> M_PS_NA_1 {
        M_PS_NA_1 {
            scd: SCD::spec_from_bytes([buf[0], buf[1], buf[2], buf[3]]),
            qds: QDS::spec_from_u8(buf[4]),
        }
    }

    /// The value buffer that holds this payload, zero past its bytes.
    pub open spec fn spec_to_buffer(self) -> DataBuffer {
        let scd = self.scd.spec_to_bytes();
        [scd[0], scd[1], scd[2], scd[3], self.qds.spec_to_u8(), 0, 0, 0, 0, 0, 0, 0]
    }

    /// Every payload is read back from its value buffer.
    pub proof fn lemma_round_trip(self)
        ensures
            M_PS_NA_1::spec_from_buffer(self.spec_to_buffer()) == self,
    {
        self.scd.lemma_round_trip();
        self.qds.lemma_round_trip();
    }
}

impl From<DataBuffer> for M_PS_NA_1 {
    fn from(buf: DataBuffer) -> (r: Self) {
        M_PS_NA_1 {
            scd: SCD::from([buf[0], buf[1], buf[2], buf[3]]),
            qds: QDS::from(buf[4]),
        }
    }
}

impl vstd::std_specs::convert::FromSpecImpl<DataBuffer> for M_PS_NA_1 {
    open spec fn obeys_from_spec() -> bool {
        true
    }

    open spec fn from_spec(buf: DataBuffer) -> Self {
        M_PS_NA_1::spec_from_buffer(buf)
    }
}

impl From<M_PS_NA_1> for DataBuffer {
    fn from(data: M_PS_NA_1) -> (r: DataBuffer) {
        let scd: [u8; 4] = <[u8; 4]>::from(data.scd);
        [scd[0], scd[1], scd[2], scd[3], u8::from(data.qds), 0, 0, 0, 0, 0, 0, 0]
    }
}

impl vstd::std_specs::convert::FromSpecImpl<M_PS_NA_1> for DataBuffer {
    open spec fn obeys_from_spec() -> bool {
        true
    }

    open spec fn from_spec(data: M_PS_NA_1) -> Self {
        data.spec_to_buffer()
    }
}

/// Measured value, normalized value without quality descriptor
#[derive(Debug, Copy, Clone, Eq, PartialEq, Default, Structural)]
pub struct M_ME_ND_1 {
    /// Normalized value
    pub nva: NVA,
}

impl M_ME_ND_1 {
    /// What the first 2 bytes of a value buffer spell.
    pub open spec fn spec_from_buffer(buf: DataBuffer) -> M_ME_ND_1 {
        M_ME_ND_1 {
            nva: NVA::spec_from_bytes([buf[0], buf[1]]),
        }
    }

    /// The value buffer that holds this payload, zero past its bytes.
    pub open spec fn spec_to_buffer(self) -> DataBuffer {
        let nva = self.nva.spec_to_bytes();
        [nva[0], nva[1], 0, 0, 0, 0, 0, 0, 0, 0, 0, 0]
    }

    /// Every payload is read back from its value buffer.
    pub proof fn lemma_round_trip(self)
        ensures
            M_ME_ND_1::spec_from_buffer(self.spec_to_buffer()) == self,
    {
        self.nva.lemma_round_trip();
    }
}

impl From<DataBuffer> for M_ME_ND_1 {
    fn from(buf: DataBuffer) -> (r: Self) {
        M_ME_ND_1 {
            nva: NVA::from([buf[0], buf[1]]),
        }
    }
}

impl vstd::std_specs::convert::FromSpecImpl<DataBuffer> for M_ME_ND_1 {
    open spec fn obeys_from_spec() -> bool {
        true
    }

    open spec fn from_spec(buf: DataBuffer) -> Self {
        M_ME_ND_1::spec_from_buffer(buf)
    }
}

impl From<M_ME_ND_1> for DataBuffer {
    fn from(data: M_ME_ND_1) -> (r: DataBuffer) {
        let nva: [u8; 2] = <[u8; 2]>::from(data.nva);
        [nva[0], nva[1], 0, 0, 0, 0, 0, 0, 0, 0, 0, 0]
    }
}

impl vstd::std_specs::convert::FromSpecImpl<M_ME_ND_1> for DataBuffer {
    open spec fn obeys_from_spec() -> bool {
        true
    }

    open spec fn from_spec(data: M_ME_ND_1) -> Self {
        data.spec_to_buffer()
    }
}

/// Single point information with time tag
#[derive(Debug, Copy, Clone, Eq, PartialEq, Default, Structural)]
pub struct M_SP_TB_1 {
    /// Single point information with quality descriptor
    pub siq: SIQ,
    /// Time tag
    pub time: CP56Time2a,
}

impl M_SP_TB_1 {
    /// What the first 8 bytes of a value buffer spell.
    pub open spec fn spec_from_buffer(buf: DataBuffer) -> M_SP_TB_1 {
        M_SP_TB_1 {
            siq: SIQ::spec_from_u8(buf[0]),
            time: CP56Time2a::spec_from_bytes(
                [buf[1], buf[2], buf[3], buf[4], buf[5], buf[6], buf[7]],
            ),
        }
    }

    /// The value buffer that holds this payload, zero past its bytes.
    pub open spec fn spec_to_buffer(self) -> DataBuffer {
        let time = self.time.spec_to_bytes();
        [
            self.siq.spec_to_u8(),
            time[0],
            time[1],
            time[2],
            time[3],
            time[4],
            time[5],
            time[6],
            0,
            0,
            0,
            0,
        ]
    }

    /// Whether the payload is one that reading can give: every part of it is in range.
    pub open spec fn spec_in_range(self) -> bool {
        spec_cp56_in_range(self.time)
    }

    /// A payload in range is read back from its value buffer.
    pub proof fn lemma_round_trip(self)
        requires
            self.spec_in_range(),
        ensures
            M_SP_TB_1::spec_from_buffer(self.spec_to_buffer()) == self,
    {
        self.siq.lemma_round_trip();
        lemma_cp56_round_trip(self.time);
    }
}

impl From<DataBuffer> for M_SP_TB_1 {
    fn from(buf: DataBuffer) -> (r: Self) {
        M_SP_TB_1 {
            siq: SIQ::from(buf[0]),
            time: CP56Time2a::from([buf[1], buf[2], buf[3], buf[4], buf[5], buf[6], buf[7]]),
        }
    }
}

impl vstd::std_specs::convert::FromSpecImpl<DataBuffer> for M_SP_TB_1 {
    open spec fn obeys_from_spec() -> bool {
        true
    }

    open spec fn from_spec(buf: DataBuffer) -> Self {
        M_SP_TB_1::spec_from_buffer(buf)
    }
}

impl From<M_SP_TB_1> for DataBuffer {
    fn from(data: M_SP_TB_1) -> (r: DataBuffer) {
        let time: [u8; 7] = <[u8; 7]>::from(data.time);
        [
            u8::from(data.siq),
            time[0],
            time[1],
            time[2],
            time[3],
            time[4],
            time[5],
            time[6],
            0,
            0,
            0,
            0,
        ]
    }
}

impl vstd::std_specs::convert::FromSpecImpl<M_SP_TB_1> for DataBuffer {
    open spec fn obeys_from_spec() -> bool {
        true
    }

    open spec fn from_spec(data: M_SP_TB_1) -> Self {
        data.spec_to_buffer()
    }
}

/// Double point information with time tag
#[derive(Debug, Copy, Clone, Eq, PartialEq, Default, Structural)]
pub struct M_DP_TB_1 {
    /// Double point information with quality descriptor
    pub diq: DIQ,
    /// Time tag
    pub time: CP56Time2a,
}

impl M_DP_TB_1 {
    /// What the first 8 bytes of a value buffer spell.
    pub open spec fn spec_from_buffer(buf: DataBuffer) -> M_DP_TB_1 {
        M_DP_TB_1 {
            diq: DIQ::spec_from_u8(buf[0]),
            time: CP56Time2a::spec_from_bytes(
                [buf[1], buf[2], buf[3], buf[4], buf[5], buf[6], buf[7]],
            ),
        }
    }

    /// The value buffer that holds this payload, zero past its bytes.
    pub open spec fn spec_to_buffer(self) -> DataBuffer {
        let time = self.time.spec_to_bytes();
        [
            self.diq.spec_to_u8(),
            time[0],
            time[1],
            time[2],
            time[3],
            time[4],
            time[5],
            time[6],
            0,
            0,
            0,
            0,
        ]
    }

    /// Whether the payload is one that reading can give: every part of it is in range.
    pub open spec fn spec_in_range(self) -> bool {
        spec_cp56_in_range(self.time)
    }

    /// A payload in range is read back from its value buffer.
    pub proof fn lemma_round_trip(self)
        requires
            self.spec_in_range(),
        ensures
            M_DP_TB_1::spec_from_buffer(self.spec_to_buffer()) == self,
    {
        self.diq.lemma_round_trip();
        lemma_cp56_round_trip(self.time);
    }
}

impl From<DataBuffer> for M_DP_TB_1 {
    fn from(buf: DataBuffer) -> (r: Self) {
        M_DP_TB_1 {
            diq: DIQ::from(buf[0]),
            time: CP56Time2a::from([buf[1], buf[2], buf[3], buf[4], buf[5], buf[6], buf[7]]),
        }
    }
}

impl vstd::std_specs::convert::FromSpecImpl<DataBuffer> for M_DP_TB_1 {
    open spec fn obeys_from_spec() -> bool {
        true
    }

    open spec fn from_spec(buf: DataBuffer) -> Self {
        M_DP_TB_1::spec_from_buffer(buf)
    }
}

impl From<M_DP_TB_1> for DataBuffer {
    fn from(data: M_DP_TB_1) -> (r: DataBuffer) {
        let time: [u8; 7] = <[u8; 7]>::from(data.time);
        [
            u8::from(data.diq),
            time[0],
            time[1],
            time[2],
            time[3],
            time[4],
            time[5],
            time[6],
            0,
            0,
            0,
            0,
        ]
    }
}

impl vstd::std_specs::convert::FromSpecImpl<M_DP_TB_1> for DataBuffer {
    open spec fn obeys_from_spec() -> bool {
        true
    }

    open spec fn from_spec(data: M_DP_TB_1) -> Self {
        data.spec_to_buffer()
    }
}

/// Step position information with time tag
#[derive(Debug, Copy, Clone, Eq, PartialEq, Default, Structural)]
pub struct M_ST_TB_1 {
    /// Value with transient state indication
    pub vti_value: u8,
    /// Quality descriptor
    pub qds: QDS,
    /// Time tag
    pub time: CP56Time2a,
}

impl M_ST_TB_1 {
    /// What the first 9 bytes of a value buffer spell.
    pub open spec fn spec_from_buffer(buf: DataBuffer) -> M_ST_TB_1 {
        M_ST_TB_1 {
            vti_value: buf[0],
            qds: QDS::spec_from_u8(buf[1]),
            time: CP56Time2a::spec_from_bytes(
                [buf[2], buf[3], buf[4], buf[5], buf[6], buf[7], buf[8]],
            ),
        }
    }

    /// The value buffer that holds this payload, zero past its bytes.
    pub open spec fn spec_to_buffer(self) -> DataBuffer {
        let time = self.time.spec_to_bytes();
        [
            self.vti_value,
            self.qds.spec_to_u8(),
            time[0],
            time[1],
            time[2],
            time[3],
            time[4],
            time[5],
            time[6],
            0,
            0,
            0,
        ]
    }

    /// Whether the payload is one that reading can give: every part of it is in range.
    pub open spec fn spec_in_range(self) -> bool {
        spec_cp56_in_range(self.time)
    }

    /// A payload in range is read back from its value buffer.
    pub proof fn lemma_round_trip(self)
        requires
            self.spec_in_range(),
        ensures
            M_ST_TB_1::spec_from_buffer(self.spec_to_buffer()) == self,
    {
        self.qds.lemma_round_trip();
        lemma_cp56_round_trip(self.time);
    }
}

impl From<DataBuffer> for M_ST_TB_1 {
    fn from(buf: DataBuffer) -> (r: Self) {
        M_ST_TB_1 {
            vti_value: buf[0],
            qds: QDS::from(buf[1]),
            time: CP56Time2a::from([buf[2], buf[3], buf[4], buf[5], buf[6], buf[7], buf[8]]),
        }
    }
}

impl vstd::std_specs::convert::FromSpecImpl<DataBuffer> for M_ST_TB_1 {
    open spec fn obeys_from_spec() -> bool {
        true
    }

    open spec fn from_spec(buf: DataBuffer) -> Self {
        M_ST_TB_1::spec_from_buffer(buf)
    }
}

impl From<M_ST_TB_1> for DataBuffer {
    fn from(data: M_ST_TB_1) -> (r: DataBuffer) {
        let time: [u8; 7] = <[u8; 7]>::from(data.time);
        [
            data.vti_value,
            u8::from(data.qds),
            time[0],
            time[1],
            time[2],
            time[3],
            time[4],
            time[5],
            time[6],
            0,
            0,
            0,
        ]
    }
}

impl vstd::std_specs::convert::FromSpecImpl<M_ST_TB_1> for DataBuffer {
    open spec fn obeys_from_spec() -> bool {
        true
    }

    open spec fn from_spec(data: M_ST_TB_1) -> Self {
        data.spec_to_buffer()
    }
}

/// Bit string of 32 bits with time tag
#[derive(Debug, Copy, Clone, Eq, PartialEq, Default, Structural)]
pub struct M_BO_TB_1 {
    /// Bit string of 32 bits
    pub bsi: BSI,
    /// Quality descriptor
    pub qds: QDS,
    /// Time tag
    pub time: CP56Time2a,
}

impl M_BO_TB_1 {
    /// What the first 12 bytes of a value buffer spell.
    pub open spec fn spec_from_buffer(buf: DataBuffer) -> M_BO_TB_1 {
        M_BO_TB_1 {
            bsi: BSI::spec_from_bytes([buf[0], buf[1], buf[2], buf[3]]),
            qds: QDS::spec_from_u8(buf[4]),
            time: CP56Time2a::spec_from_bytes(
                [buf[5], buf[6], buf[7], buf[8], buf[9], buf[10], buf[11]],
            ),
        }
    }

    /// The value buffer that holds this payload, zero past its bytes.
    pub open spec fn spec_to_buffer(self) -> DataBuffer {
        let bsi = self.bsi.spec_to_bytes();
        let time = self.time.spec_to_bytes();
        [
            bsi[0],
            bsi[1],
            bsi[2],
            bsi[3],
            self.qds.spec_to_u8(),
            time[0],
            time[1],
            time[2],
            time[3],
            time[4],
            time[5],
            time[6],
        ]
    }

    /// Whether the payload is one that reading can give: every part of it is in range.
    pub open spec fn spec_in_range(self) -> bool {
        spec_cp56_in_range(self.time)
    }

    /// A payload in range is read back from its value buffer.
    pub proof fn lemma_round_trip(self)
        requires
            self.spec_in_range(),
        ensures
            M_BO_TB_1::spec_from_buffer(self.spec_to_buffer()) == self,
    {
        self.bsi.lemma_round_trip();
        self.qds.lemma_round_trip();
        lemma_cp56_round_trip(self.time);
    }
}

impl From<DataBuffer> for M_BO_TB_1 {
    fn from(buf: DataBuffer) -> (r: Self) {
        M_BO_TB_1 {
            bsi: BSI::from([buf[0], buf[1], buf[2], buf[3]]),
            qds: QDS::from(buf[4]),
            time: CP56Time2a::from([buf[5], buf[6], buf[7], buf[8], buf[9], buf[10], buf[11]]),
        }
    }
}

impl vstd::std_specs::convert::FromSpecImpl<DataBuffer> for M_BO_TB_1 {
    open spec fn obeys_from_spec() -> bool {
        true
    }

    open spec fn from_spec(buf: DataBuffer) -> Self {
        M_BO_TB_1::spec_from_buffer(buf)
    }
}

impl From<M_BO_TB_1> for DataBuffer {
    fn from(data: M_BO_TB_1) -> (r: DataBuffer) {
        let bsi: [u8; 4] = <[u8; 4]>::from(data.bsi);
        let time: [u8; 7] = <[u8; 7]>::from(data.time);
        [
            bsi[0],
            bsi[1],
            bsi[2],
            bsi[3],
            u8::from(data.qds),
            time[0],
            time[1],
            time[2],
            time[3],
            time[4],
            time[5],
            time[6],
        ]
    }
}

impl vstd::std_specs::convert::FromSpecImpl<M_BO_TB_1> for DataBuffer {
    open spec fn obeys_from_spec() -> bool {
        true
    }

    open spec fn from_spec(data: M_BO_TB_1) -> Self {
        data.spec_to_buffer()
    }
}

/// Normalized value with time tag
#[derive(Debug, Copy, Clone, Eq, PartialEq, Default, Structural)]
pub struct M_ME_TD_1 {
    /// Normalized value
    pub nva: NVA,
    /// Quality descriptor
    pub qds: QDS,
    /// Time tag
    pub time: CP56Time2a,
}

impl M_ME_TD_1 {
    /// What the first 10 bytes of a value buffer spell.
    pub open spec fn spec_from_buffer(buf: DataBuffer) -> M_ME_TD_1 {
        M_ME_TD_1 {
            nva: NVA::spec_from_bytes([buf[0], buf[1]]),
            qds: QDS::spec_from_u8(buf[2]),
            time: CP56Time2a::spec_from_bytes(
                [buf[3], buf[4], buf[5], buf[6], buf[7], buf[8], buf[9]],
            ),
        }
    }

    /// The value buffer that holds this payload, zero past its bytes.
    pub open spec fn spec_to_buffer(self) -> DataBuffer {
        let nva = self.nva.spec_to_bytes();
        let time = self.time.spec_to_bytes();
        [
            nva[0],
            nva[1],
            self.qds.spec_to_u8(),
            time[0],
            time[1],
            time[2],
            time[3],
            time[4],
            time[5],
            time[6],
            0,
            0,
        ]
    }

    /// Whether the payload is one that reading can give: every part of it is in range.
    pub open spec fn spec_in_range(self) -> bool {
        spec_cp56_in_range(self.time)
    }

    /// A payload in range is read back from its value buffer.
    pub proof fn lemma_round_trip(self)
        requires
            self.spec_in_range(),
        ensures
            M_ME_TD_1::spec_from_buffer(self.spec_to_buffer()) == self,
    {
        self.nva.lemma_round_trip();
        self.qds.lemma_round_trip();
        lemma_cp56_round_trip(self.time);
    }
}

impl From<DataBuffer> for M_ME_TD_1 {
    fn from(buf: DataBuffer) -> (r: Self) {
        M_ME_TD_1 {
            nva: NVA::from([buf[0], buf[1]]),
            qds: QDS::from(buf[2]),
            time: CP56Time2a::from([buf[3], buf[4], buf[5], buf[6], buf[7], buf[8], buf[9]]),
        }
    }
}

impl vstd::std_specs::convert::FromSpecImpl<DataBuffer> for M_ME_TD_1 {
    open spec fn obeys_from_spec() -> bool {
        true
    }

    open spec fn from_spec(buf: DataBuffer) -> Self {
        M_ME_TD_1::spec_from_buffer(buf)
    }
}

impl From<M_ME_TD_1> for DataBuffer {
    fn from(data: M_ME_TD_1) -> (r: DataBuffer) {
        let nva: [u8; 2] = <[u8; 2]>::from(data.nva);
        let time: [u8; 7] = <[u8; 7]>::from(data.time);
        [
            nva[0],
            nva[1],
            u8::from(data.qds),
            time[0],
            time[1],
            time[2],
            time[3],
            time[4],
            time[5],
            time[6],
            0,
            0,
        ]
    }
}

impl vstd::std_specs::convert::FromSpecImpl<M_ME_TD_1> for DataBuffer {
    open spec fn obeys_from_spec() -> bool {
        true
    }

    open spec fn from_spec(data: M_ME_TD_1) -> Self {
        data.spec_to_buffer()
    }
}

/// Scaled value with time tag
#[derive(Debug, Copy, Clone, Eq, PartialEq, Default, Structural)]
pub struct M_ME_TE_1 {
    /// Scaled value
    pub sva: SVA,
    /// Quality descriptor
    pub qds: QDS,
    /// Time tag
    pub time: CP56Time2a,
}

impl M_ME_TE_1 {
    /// What the first 10 bytes of a value buffer spell.
    pub open spec fn spec_from_buffer(buf: DataBuffer) -> M_ME_TE_1 {
        M_ME_TE_1 {
            sva: SVA::spec_from_bytes([buf[0], buf[1]]),
            qds: QDS::spec_from_u8(buf[2]),
            time: CP56Time2a::spec_from_bytes(
                [buf[3], buf[4], buf[5], buf[6], buf[7], buf[8], buf[9]],
            ),
        }
    }

    /// The value buffer that holds this payload, zero past its bytes.
    pub open spec fn spec_to_buffer(self) -> DataBuffer {
        let sva = self.sva.spec_to_bytes();
        let time = self.time.spec_to_bytes();
        [
            sva[0],
            sva[1],
            self.qds.spec_to_u8(),
            time[0],
            time[1],
            time[2],
            time[3],
            time[4],
            time[5],
            time[6],
            0,
            0,
        ]
    }

    /// Whether the payload is one that reading can give: every part of it is in range.
    pub open spec fn spec_in_range(self) -> bool {
        spec_cp56_in_range(self.time)
    }

    /// A payload in range is read back from its value buffer.
    pub proof fn lemma_round_trip(self)
        requires
            self.spec_in_range(),
        ensures
            M_ME_TE_1::spec_from_buffer(self.spec_to_buffer()) == self,
    {
        self.sva.lemma_round_trip();
        self.qds.lemma_round_trip();
        lemma_cp56_round_trip(self.time);
    }
}

impl From<DataBuffer> for M_ME_TE_1 {
    fn from(buf: DataBuffer) -> (r: Self) {
        M_ME_TE_1 {
            sva: SVA::from([buf[0], buf[1]]),
            qds: QDS::from(buf[2]),
            time: CP56Time2a::from([buf[3], buf[4], buf[5], buf[6], buf[7], buf[8], buf[9]]),
        }
    }
}

impl vstd::std_specs::convert::FromSpecImpl<DataBuffer> for M_ME_TE_1 {
    open spec fn obeys_from_spec() -> bool {
        true
    }

    open spec fn from_spec(buf: DataBuffer) -> Self {
        M_ME_TE_1::spec_from_buffer(buf)
    }
}

impl From<M_ME_TE_1> for DataBuffer {
    fn from(data: M_ME_TE_1) -> (r: DataBuffer) {
        let sva: [u8; 2] = <[u8; 2]>::from(data.sva);
        let time: [u8; 7] = <[u8; 7]>::from(data.time);
        [
            sva[0],
            sva[1],
            u8::from(data.qds),
            time[0],
            time[1],
            time[2],
            time[3],
            time[4],
            time[5],
            time[6],
            0,
            0,
        ]
    }
}

impl vstd::std_specs::convert::FromSpecImpl<M_ME_TE_1> for DataBuffer {
    open spec fn obeys_from_spec() -> bool {
        true
    }

    open spec fn from_spec(data: M_ME_TE_1) -> Self {
        data.spec_to_buffer()
    }
}

/// Short floating point with time tag
#[derive(Debug, Copy, Clone, Eq, PartialEq, Default, Structural)]
pub struct M_ME_TF_1 {
    /// Short floating point
    pub r32: R32,
    /// Quality descriptor
    pub qds: QDS,
    /// Time tag
    pub time: CP56Time2a,
}

impl M_ME_TF_1 {
    /// What the first 12 bytes of a value buffer spell.
    pub open spec fn spec_from_buffer(buf: DataBuffer) -> M_ME_TF_1 {
        M_ME_TF_1 {
            r32: R32::spec_from_bytes([buf[0], buf[1], buf[2], buf[3]]),
            qds: QDS::spec_from_u8(buf[4]),
            time: CP56Time2a::spec_from_bytes(
                [buf[5], buf[6], buf[7], buf[8], buf[9], buf[10], buf[11]],
            ),
        }
    }

    /// The value buffer that holds this payload, zero past its bytes.
    pub open spec fn spec_to_buffer(self) -> DataBuffer {
        let r32 = self.r32.spec_to_bytes();
        let time = self.time.spec_to_bytes();
        [
            r32[0],
            r32[1],
            r32[2],
            r32[3],
            self.qds.spec_to_u8(),
            time[0],
            time[1],
            time[2],
            time[3],
            time[4],
            time[5],
            time[6],
        ]
    }

    /// Whether the payload is one that reading can give: every part of it is in range.
    pub open spec fn spec_in_range(self) -> bool {
        spec_cp56_in_range(self.time)
    }

    /// A payload in range is read back from its value buffer.
    pub proof fn lemma_round_trip(self)
        requires
            self.spec_in_range(),
        ensures
            M_ME_TF_1::spec_from_buffer(self.spec_to_buffer()) == self,
    {
        self.r32.lemma_round_trip();
        self.qds.lemma_round_trip();
        lemma_cp56_round_trip(self.time);
    }
}

impl From<DataBuffer> for M_ME_TF_1 {
    fn from(buf: DataBuffer) -> (r: Self) {
        M_ME_TF_1 {
            r32: R32::from([buf[0], buf[1], buf[2], buf[3]]),
            qds: QDS::from(buf[4]),
            time: CP56Time2a::from([buf[5], buf[6], buf[7], buf[8], buf[9], buf[10], buf[11]]),
        }
    }
}

impl vstd::std_specs::convert::FromSpecImpl<DataBuffer> for M_ME_TF_1 {
    open spec fn obeys_from_spec() -> bool {
        true
    }

    open spec fn from_spec(buf: DataBuffer) -> Self {
        M_ME_TF_1::spec_from_buffer(buf)
    }
}

impl From<M_ME_TF_1> for DataBuffer {
    fn from(data: M_ME_TF_1) -> (r: DataBuffer) {
        let r32: [u8; 4] = <[u8; 4]>::from(data.r32);
        let time: [u8; 7] = <[u8; 7]>::from(data.time);
        [
            r32[0],
            r32[1],
            r32[2],
            r32[3],
            u8::from(data.qds),
            time[0],
            time[1],
            time[2],
            time[3],
            time[4],
            time[5],
            time[6],
        ]
    }
}

impl vstd::std_specs::convert::FromSpecImpl<M_ME_TF_1> for DataBuffer {
    open spec fn obeys_from_spec() -> bool {
        true
    }

    open spec fn from_spec(data: M_ME_TF_1) -> Self {
        data.spec_to_buffer()
    }
}

/// Integrated total with time tag
#[derive(Debug, Copy, Clone, Eq, PartialEq, Default, Structural)]
pub struct M_IT_TB_1 {
    /// Binary counter reading
    pub bcr: BCR,
    /// Sequence quality descriptor
    pub seq_qd: SeqQD,
    /// Time tag
    pub time: CP56Time2a,
}

impl M_IT_TB_1 {
    /// What the first 12 bytes of a value buffer spell.
    pub open spec fn spec_from_buffer(buf: DataBuffer) -> M_IT_TB_1 {
        M_IT_TB_1 {
            bcr: BCR::spec_from_bytes([buf[0], buf[1], buf[2], buf[3]]),
            seq_qd: SeqQD::spec_from_u8(buf[4]),
            time: CP56Time2a::spec_from_bytes(
                [buf[5], buf[6], buf[7], buf[8], buf[9], buf[10], buf[11]],
            ),
        }
    }

    /// The value buffer that holds this payload, zero past its bytes.
    pub open spec fn spec_to_buffer(self) -> DataBuffer {
        let bcr = self.bcr.spec_to_bytes();
        let time = self.time.spec_to_bytes();
        [
            bcr[0],
            bcr[1],
            bcr[2],
            bcr[3],
            self.seq_qd.spec_to_u8(),
            time[0],
            time[1],
            time[2],
            time[3],
            time[4],
            time[5],
            time[6],
        ]
    }

    /// Whether the payload is one that reading can give: every part of it is in range.
    pub open spec fn spec_in_range(self) -> bool {
        self.seq_qd.spec_in_range() && spec_cp56_in_range(self.time)
    }

    /// A payload in range is read back from its value buffer.
    pub proof fn lemma_round_trip(self)
        requires
            self.spec_in_range(),
        ensures
            M_IT_TB_1::spec_from_buffer(self.spec_to_buffer()) == self,
    {
        self.bcr.lemma_round_trip();
        self.seq_qd.lemma_round_trip();
        lemma_cp56_round_trip(self.time);
    }
}

impl From<DataBuffer> for M_IT_TB_1 {
    fn from(buf: DataBuffer) -> (r: Self) {
        M_IT_TB_1 {
            bcr: BCR::from([buf[0], buf[1], buf[2], buf[3]]),
            seq_qd: SeqQD::from(buf[4]),
            time: CP56Time2a::from([buf[5], buf[6], buf[7], buf[8], buf[9], buf[10], buf[11]]),
        }
    }
}

impl vstd::std_specs::convert::FromSpecImpl<DataBuffer> for M_IT_TB_1 {
    open spec fn obeys_from_spec() -> bool {
        true
    }

    open spec fn from_spec(buf: DataBuffer) -> Self {
        M_IT_TB_1::spec_from_buffer(buf)
    }
}

impl From<M_IT_TB_1> for DataBuffer {
    fn from(data: M_IT_TB_1) -> (r: DataBuffer) {
        let bcr: [u8; 4] = <[u8; 4]>::from(data.bcr);
        let time: [u8; 7] = <[u8; 7]>::from(data.time);
        [
            bcr[0],
            bcr[1],
            bcr[2],
            bcr[3],
            u8::from(data.seq_qd),
            time[0],
            time[1],
            time[2],
            time[3],
            time[4],
            time[5],
            time[6],
        ]
    }
}

impl vstd::std_specs::convert::FromSpecImpl<M_IT_TB_1> for DataBuffer {
    open spec fn obeys_from_spec() -> bool {
        true
    }

    open spec fn from_spec(data: M_IT_TB_1) -> Self {
        data.spec_to_buffer()
    }
}

/// Single event of protection equipment with time tag
#[derive(Debug, Copy, Clone, Eq, PartialEq, Default, Structural)]
pub struct M_EP_TD_1 {
    /// Single event of protection equipment
    pub sep: SEP,
    /// Elapsed time
    pub elapsed: CP16Time2a,
    /// Time tag
    pub time: CP56Time2a,
}

impl M_EP_TD_1 {
    /// What the first 10 bytes of a value buffer spell.
    pub open spec fn spec_from_buffer(buf: DataBuffer) -> M_EP_TD_1 {
        M_EP_TD_1 {
            sep: SEP::spec_from_u8(buf[0]),
            elapsed: CP16Time2a::spec_from_bytes([buf[1], buf[2]]),
            time: CP56Time2a::spec_from_bytes(
                [buf[3], buf[4], buf[5], buf[6], buf[7], buf[8], buf[9]],
            ),
        }
    }

    /// The value buffer that holds this payload, zero past its bytes.
    pub open spec fn spec_to_buffer(self) -> DataBuffer {
        let elapsed = self.elapsed.spec_to_bytes();
        let time = self.time.spec_to_bytes();
        [
            self.sep.spec_to_u8(),
            elapsed[0],
            elapsed[1],
            time[0],
            time[1],
            time[2],
            time[3],
            time[4],
            time[5],
            time[6],
            0,
            0,
        ]
    }

    /// Whether the payload is one that reading can give: every part of it is in range.
    pub open spec fn spec_in_range(self) -> bool {
        spec_cp56_in_range(self.time)
    }

    /// A payload in range is read back from its value buffer.
    pub proof fn lemma_round_trip(self)
        requires
            self.spec_in_range(),
        ensures
            M_EP_TD_1::spec_from_buffer(self.spec_to_buffer()) == self,
    {
        self.sep.lemma_round_trip();
        lemma_cp16_round_trip(self.elapsed);
        lemma_cp56_round_trip(self.time);
    }
}

impl From<DataBuffer> for M_EP_TD_1 {
    fn from(buf: DataBuffer) -> (r: Self) {
        M_EP_TD_1 {
            sep: SEP::from(buf[0]),
            elapsed: CP16Time2a::from([buf[1], buf[2]]),
            time: CP56Time2a::from([buf[3], buf[4], buf[5], buf[6], buf[7], buf[8], buf[9]]),
        }
    }
}

impl vstd::std_specs::convert::FromSpecImpl<DataBuffer> for M_EP_TD_1 {
    open spec fn obeys_from_spec() -> bool {
        true
    }

    open spec fn from_spec(buf: DataBuffer) -> Self {
        M_EP_TD_1::spec_from_buffer(buf)
    }
}

impl From<M_EP_TD_1> for DataBuffer {
    fn from(data: M_EP_TD_1) -> (r: DataBuffer) {
        let elapsed: [u8; 2] = <[u8; 2]>::from(data.elapsed);
        let time: [u8; 7] = <[u8; 7]>::from(data.time);
        [
            u8::from(data.sep),
            elapsed[0],
            elapsed[1],
            time[0],
            time[1],
            time[2],
            time[3],
            time[4],
            time[5],
            time[6],
            0,
            0,
        ]
    }
}

impl vstd::std_specs::convert::FromSpecImpl<M_EP_TD_1> for DataBuffer {
    open spec fn obeys_from_spec() -> bool {
        true
    }

    open spec fn from_spec(data: M_EP_TD_1) -> Self {
        data.spec_to_buffer()
    }
}

/// Packed start events of protection equipment with time tag
#[derive(Debug, Copy, Clone, Eq, PartialEq, Default, Structural)]
pub struct M_EP_TE_1 {
    /// Start events of protection equipment
    pub start_ep: StartEP,
    /// Quality descriptor of protection equipment
    pub qdp: QDP,
    /// Relay duration time
    pub relay_duration: CP16Time2a,
    /// Time tag
    pub time: CP56Time2a,
}

impl M_EP_TE_1 {
    /// What the first 11 bytes of a value buffer spell.
    pub open spec fn spec_from_buffer(buf: DataBuffer) -> M_EP_TE_1 {
        M_EP_TE_1 {
            start_ep: StartEP::spec_from_u8(buf[0]),
            qdp: QDP::spec_from_u8(buf[1]),
            relay_duration: CP16Time2a::spec_from_bytes([buf[2], buf[3]]),
            time: CP56Time2a::spec_from_bytes(
                [buf[4], buf[5], buf[6], buf[7], buf[8], buf[9], buf[10]],
            ),
        }
    }

    /// The value buffer that holds this payload, zero past its bytes.
    pub open spec fn spec_to_buffer(self) -> DataBuffer {
        let relay_duration = self.relay_duration.spec_to_bytes();
        let time = self.time.spec_to_bytes();
        [
            self.start_ep.spec_to_u8(),
            self.qdp.spec_to_u8(),
            relay_duration[0],
            relay_duration[1],
            time[0],
            time[1],
            time[2],
            time[3],
            time[4],
            time[5],
            time[6],
            0,
        ]
    }

    /// Whether the payload is one that reading can give: every part of it is in range.
    pub open spec fn spec_in_range(self) -> bool {
        spec_cp56_in_range(self.time)
    }

    /// A payload in range is read back from its value buffer.
    pub proof fn lemma_round_trip(self)
        requires
            self.spec_in_range(),
        ensures
            M_EP_TE_1::spec_from_buffer(self.spec_to_buffer()) == self,
    {
        self.start_ep.lemma_round_trip();
        self.qdp.lemma_round_trip();
        lemma_cp16_round_trip(self.relay_duration);
        lemma_cp56_round_trip(self.time);
    }
}

impl From<DataBuffer> for M_EP_TE_1 {
    fn from(buf: DataBuffer) -> (r: Self) {
        M_EP_TE_1 {
            start_ep: StartEP::from(buf[0]),
            qdp: QDP::from(buf[1]),
            relay_duration: CP16Time2a::from([buf[2], buf[3]]),
            time: CP56Time2a::from([buf[4], buf[5], buf[6], buf[7], buf[8], buf[9], buf[10]]),
        }
    }
}

impl vstd::std_specs::convert::FromSpecImpl<DataBuffer> for M_EP_TE_1 {
    open spec fn obeys_from_spec() -> bool {
        true
    }

    open spec fn from_spec(buf: DataBuffer) -> Self {
        M_EP_TE_1::spec_from_buffer(buf)
    }
}

impl From<M_EP_TE_1> for DataBuffer {
    fn from(data: M_EP_TE_1) -> (r: DataBuffer) {
        let relay_duration: [u8; 2] = <[u8; 2]>::from(data.relay_duration);
        let time: [u8; 7] = <[u8; 7]>::from(data.time);
        [
            u8::from(data.start_ep),
            u8::from(data.qdp),
            relay_duration[0],
            relay_duration[1],
            time[0],
            time[1],
            time[2],
            time[3],
            time[4],
            time[5],
            time[6],
            0,
        ]
    }
}

impl vstd::std_specs::convert::FromSpecImpl<M_EP_TE_1> for DataBuffer {
    open spec fn obeys_from_spec() -> bool {
        true
    }

    open spec fn from_spec(data: M_EP_TE_1) -> Self {
        data.spec_to_buffer()
    }
}

/// Packed output circuit information with time tag
#[derive(Debug, Copy, Clone, Eq, PartialEq, Default, Structural)]
pub struct M_EP_TF_1 {
    /// Output circuit information
    pub oci: OCI,
    /// Quality descriptor of protection equipment
    pub qdp: QDP,
    /// Relay operation time
    pub relay_op_time: CP16Time2a,
    /// Time tag
    pub time: CP56Time2a,
}

impl M_EP_TF_1 {
    /// What the first 11 bytes of a value buffer spell.
    pub open spec fn spec_from_buffer(buf: DataBuffer) -> M_EP_TF_1 {
        M_EP_TF_1 {
            oci: OCI::spec_from_u8(buf[0]),
            qdp: QDP::spec_from_u8(buf[1]),
            relay_op_time: CP16Time2a::spec_from_bytes([buf[2], buf[3]]),
            time: CP56Time2a::spec_from_bytes(
                [buf[4], buf[5], buf[6], buf[7], buf[8], buf[9], buf[10]],
            ),
        }
    }

    /// The value buffer that holds this payload, zero past its bytes.
    pub open spec fn spec_to_buffer(self) -> DataBuffer {
        let relay_op_time = self.relay_op_time.spec_to_bytes();
        let time = self.time.spec_to_bytes();
        [
            self.oci.spec_to_u8(),
            self.qdp.spec_to_u8(),
            relay_op_time[0],
            relay_op_time[1],
            time[0],
            time[1],
            time[2],
            time[3],
            time[4],
            time[5],
            time[6],
            0,
        ]
    }

    /// Whether the payload is one that reading can give: every part of it is in range.
    pub open spec fn spec_in_range(self) -> bool {
        spec_cp56_in_range(self.time)
    }

    /// A payload in range is read back from its value buffer.
    pub proof fn lemma_round_trip(self)
        requires
            self.spec_in_range(),
        ensures
            M_EP_TF_1::spec_from_buffer(self.spec_to_buffer()) == self,
    {
        self.oci.lemma_round_trip();
        self.qdp.lemma_round_trip();
        lemma_cp16_round_trip(self.relay_op_time);
        lemma_cp56_round_trip(self.time);
    }
}

impl From<DataBuffer> for M_EP_TF_1 {
    fn from(buf: DataBuffer) -> (r: Self) {
        M_EP_TF_1 {
            oci: OCI::from(buf[0]),
            qdp: QDP::from(buf[1]),
            relay_op_time: CP16Time2a::from([buf[2], buf[3]]),
            time: CP56Time2a::from([buf[4], buf[5], buf[6], buf[7], buf[8], buf[9], buf[10]]),
        }
    }
}

impl vstd::std_specs::convert::FromSpecImpl<DataBuffer> for M_EP_TF_1 {
    open spec fn obeys_from_spec() -> bool {
        true
    }

    open spec fn from_spec(buf: DataBuffer) -> Self {
        M_EP_TF_1::spec_from_buffer(buf)
    }
}

impl From<M_EP_TF_1> for DataBuffer {
    fn from(data: M_EP_TF_1) -> (r: DataBuffer) {
        let relay_op_time: [u8; 2] = <[u8; 2]>::from(data.relay_op_time);
        let time: [u8; 7] = <[u8; 7]>::from(data.time);
        [
            u8::from(data.oci),
            u8::from(data.qdp),
            relay_op_time[0],
            relay_op_time[1],
            time[0],
            time[1],
            time[2],
            time[3],
            time[4],
            time[5],
            time[6],
            0,
        ]
    }
}

impl vstd::std_specs::convert::FromSpecImpl<M_EP_TF_1> for DataBuffer {
    open spec fn obeys_from_spec() -> bool {
        true
    }

    open spec fn from_spec(data: M_EP_TF_1) -> Self {
        data.spec_to_buffer()
    }
}

/// Select/execute command
#[derive(Debug, Copy, Clone, Eq, PartialEq, Default, Structural)]
pub enum SelectExecute {
    /// Execute
    Execute,
    /// Select
    #[default]
    Select,
}

impl SelectExecute {
    /// The value that each number names.
    pub open spec fn spec_from_u8(value: u8) -> SelectExecute {
        match value {
            0 => SelectExecute::Execute,
            _ => SelectExecute::Select,
        }
    }

    /// The number of each value.
    pub open spec fn spec_to_u8(self) -> u8 {
        match self {
            SelectExecute::Execute => 0,
            SelectExecute::Select => 1,
        }
    }

    /// The number of this value.
    pub fn code(self) -> (r: u8)
        ensures
            r == self.spec_to_u8(),
    {
        match self {
            SelectExecute::Execute => 0,
            SelectExecute::Select => 1,
        }
    }

    /// Every value is read back from its number.
    pub proof fn lemma_round_trip(self)
        ensures
            SelectExecute::spec_from_u8(self.spec_to_u8()) == self,
    {
    }
}

impl From<u8> for SelectExecute {
    fn from(value: u8) -> (r: Self) {
        match value {
            0 => SelectExecute::Execute,
            _ => SelectExecute::Select,
        }
    }
}

impl vstd::std_specs::convert::FromSpecImpl<u8> for SelectExecute {
    open spec fn obeys_from_spec() -> bool {
        true
    }

    open spec fn from_spec(value: u8) -> Self {
        SelectExecute::spec_from_u8(value)
    }
}

/// Qualifer of command
#[derive(Debug, Copy, Clone, Eq, PartialEq, Default, Structural)]
pub enum QU {
    /// Unspecified
    #[default]
    Unspecified,
    /// Short pulse
    ShortPulse,
    /// Long pulse
    LongPulse,
    /// Persistent
    Persistent,
    /// Other (custom)
    Other(u8),
}

impl QU {
    /// The value that each number names.
    pub open spec fn spec_from_u8(value: u8) -> QU {
        match value {
            0 => QU::Unspecified,
            1 => QU::ShortPulse,
            2 => QU::LongPulse,
            3 => QU::Persistent,
            v => QU::Other(v),
        }
    }

    /// The number of each value.
    pub open spec fn spec_to_u8(self) -> u8 {
        match self {
            QU::Unspecified => 0,
            QU::ShortPulse => 1,
            QU::LongPulse => 2,
            QU::Persistent => 3,
            QU::Other(v) => v,
        }
    }

    /// Whether the value is the one that its number names: `Other` holds no number
    /// that has a name of its own.
    pub open spec fn spec_canonical(self) -> bool {
        match self {
            QU::Other(v) => v > 3,
            _ => true,
        }
    }

    /// A canonical value is read back from its number.
    pub proof fn lemma_round_trip(self)
        requires
            self.spec_canonical(),
        ensures
            QU::spec_from_u8(self.spec_to_u8()) == self,
    {
    }
}

impl From<u8> for QU {
    fn from(value: u8) -> (r: Self) {
        match value {
            0 => QU::Unspecified,
            1 => QU::ShortPulse,
            2 => QU::LongPulse,
            3 => QU::Persistent,
            v => QU::Other(v),
        }
    }
}

impl vstd::std_specs::convert::FromSpecImpl<u8> for QU {
    open spec fn obeys_from_spec() -> bool {
        true
    }

    open spec fn from_spec(value: u8) -> Self {
        QU::spec_from_u8(value)
    }
}

impl From<QU> for u8 {
    fn from(data: QU) -> (r: u8) {
        match data {
            QU::Unspecified => 0,
            QU::ShortPulse => 1,
            QU::LongPulse => 2,
            QU::Persistent => 3,
            QU::Other(v) => v,
        }
    }
}

impl vstd::std_specs::convert::FromSpecImpl<QU> for u8 {
    open spec fn obeys_from_spec() -> bool {
        true
    }

    open spec fn from_spec(data: QU) -> Self {
        data.spec_to_u8()
    }
}

/// Single command
#[derive(Debug, Copy, Clone, Eq, PartialEq, Default, Structural)]
pub struct SCO {
    /// Select/execute
    pub se: SelectExecute,
    /// Qualifier of command
    pub qu: QU,
    /// Single command state information
    pub scs: SPI,
}

impl SCO {
    /// Bit 7: select or execute. Bits 2 to 6: the qualifier. Bit 0: the command state.
    pub open spec fn spec_from_u8(v: u8) -> SCO {
        SCO {
            se: SelectExecute::spec_from_u8(v >> 7),
            qu: QU::spec_from_u8((v >> 2) & 0b0001_1111),
            scs: SPI::spec_from_u8(v & 0b0000_0001),
        }
    }

    /// The byte that holds this value.
    pub open spec fn spec_to_u8(self) -> u8 {
        (self.se.spec_to_u8() << 7) | ((self.qu.spec_to_u8() & 0b0001_1111) << 2)
            | self.scs.spec_to_u8()
    }

    proof fn lemma_bits(se: u8, qu: u8, scs: u8)
        by (bit_vector)
        requires
            se <= 1,
            qu < 32,
            scs <= 1,
        ensures
            ({
                let v = (se << 7) | ((qu & 0b0001_1111) << 2) | scs;
                &&& (v >> 7) == se
                &&& ((v >> 2) & 0b0001_1111) == qu
                &&& (v & 0b0000_0001) == scs
            }),
    {
    }

    /// Whether the value is one that reading can give: the qualifier is canonical and fits in five
    /// bits.
    pub open spec fn spec_in_range(self) -> bool {
        self.qu.spec_canonical() && self.qu.spec_to_u8() < 32
    }

    /// A value in range is read back from its byte.
    pub proof fn lemma_round_trip(self)
        requires
            self.spec_in_range(),
        ensures
            SCO::spec_from_u8(self.spec_to_u8()) == self,
    {
        self.se.lemma_round_trip();
        self.qu.lemma_round_trip();
        self.scs.lemma_round_trip();
        SCO::lemma_bits(self.se.spec_to_u8(), self.qu.spec_to_u8(), self.scs.spec_to_u8());
    }
}

impl From<u8> for SCO {
    fn from(v: u8) -> (r: Self) {
        SCO {
            se: SelectExecute::from(v >> 7),
            qu: QU::from((v >> 2) & 0b0001_1111),
            scs: SPI::from(v & 0b0000_0001),
        }
    }
}

impl vstd::std_specs::convert::FromSpecImpl<u8> for SCO {
    open spec fn obeys_from_spec() -> bool {
        true
    }

    open spec fn from_spec(v: u8) -> Self {
        SCO::spec_from_u8(v)
    }
}

impl From<SCO> for u8 {
    fn from(data: SCO) -> (r: u8) {
        (data.se.code() << 7) | ((u8::from(data.qu) & 0b0001_1111) << 2) | data.scs.code()
    }
}

impl vstd::std_specs::convert::FromSpecImpl<SCO> for u8 {
    open spec fn obeys_from_spec() -> bool {
        true
    }

    open spec fn from_spec(data: SCO) -> Self {
        data.spec_to_u8()
    }
}

/// Single command
#[derive(Debug, Copy, Clone, Eq, PartialEq, Default, Structural)]
pub struct C_SC_NA_1 {
    /// Single command
    pub sco: SCO,
}

impl C_SC_NA_1 {
    /// What the first byte of a value buffer spells.
    pub open spec fn spec_from_buffer(buf: DataBuffer) -> C_SC_NA_1 {
        C_SC_NA_1 {
            sco: SCO::spec_from_u8(buf[0]),
        }
    }

    /// The value buffer that holds this payload, zero past its bytes.
    pub open spec fn spec_to_buffer(self) -> DataBuffer {
        [self.sco.spec_to_u8(), 0, 0, 0, 0, 0, 0, 0, 0, 0, 0, 0]
    }

    /// Whether the payload is one that reading can give: every part of it is in range.
    pub open spec fn spec_in_range(self) -> bool {
        self.sco.spec_in_range()
    }

    /// A payload in range is read back from its value buffer.
    pub proof fn lemma_round_trip(self)
        requires
            self.spec_in_range(),
        ensures
            C_SC_NA_1::spec_from_buffer(self.spec_to_buffer()) == self,
    {
        self.sco.lemma_round_trip();
    }
}

impl From<DataBuffer> for C_SC_NA_1 {
    fn from(buf: DataBuffer) -> (r: Self) {
        C_SC_NA_1 {
            sco: SCO::from(buf[0]),
        }
    }
}

impl vstd::std_specs::convert::FromSpecImpl<DataBuffer> for C_SC_NA_1 {
    open spec fn obeys_from_spec() -> bool {
        true
    }

    open spec fn from_spec(buf: DataBuffer) -> Self {
        C_SC_NA_1::spec_from_buffer(buf)
    }
}

impl From<C_SC_NA_1> for DataBuffer {
    fn from(data: C_SC_NA_1) -> (r: DataBuffer) {
        [u8::from(data.sco), 0, 0, 0, 0, 0, 0, 0, 0, 0, 0, 0]
    }
}

impl vstd::std_specs::convert::FromSpecImpl<C_SC_NA_1> for DataBuffer {
    open spec fn obeys_from_spec() -> bool {
        true
    }

    open spec fn from_spec(data: C_SC_NA_1) -> Self {
        data.spec_to_buffer()
    }
}

/// Double command
#[derive(Debug, Copy, Clone, Eq, PartialEq, Default, Structural)]
pub struct DCO {
    /// Select/execute
    pub se: SelectExecute,
    /// Qualifier of command
    pub qu: QU,
    /// Double command state information
    pub dcs: DPI,
}

impl DCO {
    /// Bit 7: select or execute. Bits 2 to 6: the qualifier. Bit 0 is read as the command state;
    /// writing puts the state in bits 0 and 1.
    pub open spec fn spec_from_u8(v: u8) -> DCO {
        DCO {
            se: SelectExecute::spec_from_u8(v >> 7),
            qu: QU::spec_from_u8((v >> 2) & 0b0001_1111),
            dcs: DPI::spec_from_u8(v & 0b0000_0001),
        }
    }

    /// The byte that holds this value.
    pub open spec fn spec_to_u8(self) -> u8 {
        (self.se.spec_to_u8() << 7) | ((self.qu.spec_to_u8() & 0b0001_1111) << 2)
            | self.dcs.spec_to_u8()
    }

    proof fn lemma_bits(se: u8, qu: u8, dcs: u8)
        by (bit_vector)
        requires
            se <= 1,
            qu < 32,
            dcs <= 1,
        ensures
            ({
                let v = (se << 7) | ((qu & 0b0001_1111) << 2) | dcs;
                &&& (v >> 7) == se
                &&& ((v >> 2) & 0b0001_1111) == qu
                &&& (v & 0b0000_0001) == dcs
            }),
    {
    }

    /// Whether the value is one that reading can give: the qualifier is canonical and fits in five
    /// bits, and the command state fits in the one bit that is read.
    pub open spec fn spec_in_range(self) -> bool {
        self.qu.spec_canonical() && self.qu.spec_to_u8() < 32 && self.dcs.spec_to_u8() <= 1
    }

    /// A value in range is read back from its byte.
    pub proof fn lemma_round_trip(self)
        requires
            self.spec_in_range(),
        ensures
            DCO::spec_from_u8(self.spec_to_u8()) == self,
    {
        self.se.lemma_round_trip();
        self.qu.lemma_round_trip();
        self.dcs.lemma_round_trip();
        DCO::lemma_bits(self.se.spec_to_u8(), self.qu.spec_to_u8(), self.dcs.spec_to_u8());
    }
}

impl From<u8> for DCO {
    fn from(v: u8) -> (r: Self) {
        DCO {
            se: SelectExecute::from(v >> 7),
            qu: QU::from((v >> 2) & 0b0001_1111),
            dcs: DPI::from(v & 0b0000_0001),
        }
    }
}

impl vstd::std_specs::convert::FromSpecImpl<u8> for DCO {
    open spec fn obeys_from_spec() -> bool {
        true
    }

    open spec fn from_spec(v: u8) -> Self {
        DCO::spec_from_u8(v)
    }
}

impl From<DCO> for u8 {
    fn from(data: DCO) -> (r: u8) {
        (data.se.code() << 7) | ((u8::from(data.qu) & 0b0001_1111) << 2) | data.dcs.code()
    }
}

impl vstd::std_specs::convert::FromSpecImpl<DCO> for u8 {
    open spec fn obeys_from_spec() -> bool {
        true
    }

    open spec fn from_spec(data: DCO) -> Self {
        data.spec_to_u8()
    }
}

/// Double command
#[derive(Debug, Copy, Clone, Eq, PartialEq, Default, Structural)]
pub struct C_DC_NA_1 {
    /// Double command
    pub dco: DCO,
}

impl C_DC_NA_1 {
    /// What the first byte of a value buffer spells.
    pub open spec fn spec_from_buffer(buf: DataBuffer) -> C_DC_NA_1 {
        C_DC_NA_1 {
            dco: DCO::spec_from_u8(buf[0]),
        }
    }

    /// The value buffer that holds this payload, zero past its bytes.
    pub open spec fn spec_to_buffer(self) -> DataBuffer {
        [self.dco.spec_to_u8(), 0, 0, 0, 0, 0, 0, 0, 0, 0, 0, 0]
    }

    /// Whether the payload is one that reading can give: every part of it is in range.
    pub open spec fn spec_in_range(self) -> bool {
        self.dco.spec_in_range()
    }

    /// A payload in range is read back from its value buffer.
    pub proof fn lemma_round_trip(self)
        requires
            self.spec_in_range(),
        ensures
            C_DC_NA_1::spec_from_buffer(self.spec_to_buffer()) == self,
    {
        self.dco.lemma_round_trip();
    }
}

impl From<DataBuffer> for C_DC_NA_1 {
    fn from(buf: DataBuffer) -> (r: Self) {
        C_DC_NA_1 {
            dco: DCO::from(buf[0]),
        }
    }
}

impl vstd::std_specs::convert::FromSpecImpl<DataBuffer> for C_DC_NA_1 {
    open spec fn obeys_from_spec() -> bool {
        true
    }

    open spec fn from_spec(buf: DataBuffer) -> Self {
        C_DC_NA_1::spec_from_buffer(buf)
    }
}

impl From<C_DC_NA_1> for DataBuffer {
    fn from(data: C_DC_NA_1) -> (r: DataBuffer) {
        [u8::from(data.dco), 0, 0, 0, 0, 0, 0, 0, 0, 0, 0, 0]
    }
}

impl vstd::std_specs::convert::FromSpecImpl<C_DC_NA_1> for DataBuffer {
    open spec fn obeys_from_spec() -> bool {
        true
    }

    open spec fn from_spec(data: C_DC_NA_1) -> Self {
        data.spec_to_buffer()
    }
}

/// Status of regulating step
#[derive(Debug, Copy, Clone, Eq, PartialEq, Default, Structural)]
pub enum RCS {
    /// Not allowed
    #[default]
    NotAllowed0,
    /// Decrement
    Decrement,
    /// Increment
    Increment,
    /// Not allowed
    NotAllowed3,
}

impl RCS {
    /// The value that each number names.
    pub open spec fn spec_from_u8(value: u8) -> RCS {
        match value {
            0 => RCS::NotAllowed0,
            1 => RCS::Decrement,
            2 => RCS::Increment,
            _ => RCS::NotAllowed3,
        }
    }

    /// The number of each value.
    pub open spec fn spec_to_u8(self) -> u8 {
        match self {
            RCS::NotAllowed0 => 0,
            RCS::Decrement => 1,
            RCS::Increment => 2,
            RCS::NotAllowed3 => 3,
        }
    }

    /// The number of this value.
    pub fn code(self) -> (r: u8)
        ensures
            r == self.spec_to_u8(),
    {
        match self {
            RCS::NotAllowed0 => 0,
            RCS::Decrement => 1,
            RCS::Increment => 2,
            RCS::NotAllowed3 => 3,
        }
    }

    /// Every value is read back from its number.
    pub proof fn lemma_round_trip(self)
        ensures
            RCS::spec_from_u8(self.spec_to_u8()) == self,
    {
    }
}

impl From<u8> for RCS {
    fn from(value: u8) -> (r: Self) {
        match value {
            0 => RCS::NotAllowed0,
            1 => RCS::Decrement,
            2 => RCS::Increment,
            _ => RCS::NotAllowed3,
        }
    }
}

impl vstd::std_specs::convert::FromSpecImpl<u8> for RCS {
    open spec fn obeys_from_spec() -> bool {
        true
    }

    open spec fn from_spec(value: u8) -> Self {
        RCS::spec_from_u8(value)
    }
}

/// Regulating step command
#[derive(Debug, Copy, Clone, Eq, PartialEq, Default, Structural)]
pub struct RCO {
    /// Select/execute
    pub se: SelectExecute,
    /// Qualifier of command
    pub qu: QU,
    /// Status of regulating step
    pub rcs: RCS,
}

impl RCO {
    /// Bit 7: select or execute. Bits 2 to 6: the qualifier. Bits 0 and 1: the step command state.
    pub open spec fn spec_from_u8(v: u8) -> RCO {
        RCO {
            se: SelectExecute::spec_from_u8(v >> 7),
            qu: QU::spec_from_u8((v >> 2) & 0b0001_1111),
            rcs: RCS::spec_from_u8(v & 0b0000_0011),
        }
    }

    /// The byte that holds this value.
    pub open spec fn spec_to_u8(self) -> u8 {
        (self.se.spec_to_u8() << 7) | ((self.qu.spec_to_u8() & 0b0001_1111) << 2)
            | self.rcs.spec_to_u8()
    }

    proof fn lemma_bits(se: u8, qu: u8, rcs: u8)
        by (bit_vector)
        requires
            se <= 1,
            qu < 32,
            rcs <= 3,
        ensures
            ({
                let v = (se << 7) | ((qu & 0b0001_1111) << 2) | rcs;
                &&& (v >> 7) == se
                &&& ((v >> 2) & 0b0001_1111) == qu
                &&& (v & 0b0000_0011) == rcs
            }),
    {
    }

    /// Whether the value is one that reading can give: the qualifier is canonical and fits in five
    /// bits.
    pub open spec fn spec_in_range(self) -> bool {
        self.qu.spec_canonical() && self.qu.spec_to_u8() < 32
    }

    /// A value in range is read back from its byte.
    pub proof fn lemma_round_trip(self)
        requires
            self.spec_in_range(),
        ensures
            RCO::spec_from_u8(self.spec_to_u8()) == self,
    {
        self.se.lemma_round_trip();
        self.qu.lemma_round_trip();
        self.rcs.lemma_round_trip();
        RCO::lemma_bits(self.se.spec_to_u8(), self.qu.spec_to_u8(), self.rcs.spec_to_u8());
    }
}

impl From<u8> for RCO {
    fn from(v: u8) -> (r: Self) {
        RCO {
            se: SelectExecute::from(v >> 7),
            qu: QU::from((v >> 2) & 0b0001_1111),
            rcs: RCS::from(v & 0b0000_0011),
        }
    }
}

impl vstd::std_specs::convert::FromSpecImpl<u8> for RCO {
    open spec fn obeys_from_spec() -> bool {
        true
    }

    open spec fn from_spec(v: u8) -> Self {
        RCO::spec_from_u8(v)
    }
}

impl From<RCO> for u8 {
    fn from(data: RCO) -> (r: u8) {
        (data.se.code() << 7) | ((u8::from(data.qu) & 0b0001_1111) << 2) | data.rcs.code()
    }
}

impl vstd::std_specs::convert::FromSpecImpl<RCO> for u8 {
    open spec fn obeys_from_spec() -> bool {
        true
    }

    open spec fn from_spec(data: RCO) -> Self {
        data.spec_to_u8()
    }
}

/// Regulating step command
#[derive(Debug, Copy, Clone, Eq, PartialEq, Default, Structural)]
pub struct C_RC_NA_1 {
    /// Regulating step command
    pub rco: RCO,
}

impl C_RC_NA_1 {
    /// What the first byte of a value buffer spells.
    pub open spec fn spec_from_buffer(buf: DataBuffer) -> C_RC_NA_1 {
        C_RC_NA_1 {
            rco: RCO::spec_from_u8(buf[0]),
        }
    }

    /// The value buffer that holds this payload, zero past its bytes.
    pub open spec fn spec_to_buffer(self) -> DataBuffer {
        [self.rco.spec_to_u8(), 0, 0, 0, 0, 0, 0, 0, 0, 0, 0, 0]
    }

    /// Whether the payload is one that reading can give: every part of it is in range.
    pub open spec fn spec_in_range(self) -> bool {
        self.rco.spec_in_range()
    }

    /// A payload in range is read back from its value buffer.
    pub proof fn lemma_round_trip(self)
        requires
            self.spec_in_range(),
        ensures
            C_RC_NA_1::spec_from_buffer(self.spec_to_buffer()) == self,
    {
        self.rco.lemma_round_trip();
    }
}

impl From<DataBuffer> for C_RC_NA_1 {
    fn from(buf: DataBuffer) -> (r: Self) {
        C_RC_NA_1 {
            rco: RCO::from(buf[0]),
        }
    }
}

impl vstd::std_specs::convert::FromSpecImpl<DataBuffer> for C_RC_NA_1 {
    open spec fn obeys_from_spec() -> bool {
        true
    }

    open spec fn from_spec(buf: DataBuffer) -> Self {
        C_RC_NA_1::spec_from_buffer(buf)
    }
}

impl From<C_RC_NA_1> for DataBuffer {
    fn from(data: C_RC_NA_1) -> (r: DataBuffer) {
        [u8::from(data.rco), 0, 0, 0, 0, 0, 0, 0, 0, 0, 0, 0]
    }
}

impl vstd::std_specs::convert::FromSpecImpl<C_RC_NA_1> for DataBuffer {
    open spec fn obeys_from_spec() -> bool {
        true
    }

    open spec fn from_spec(data: C_RC_NA_1) -> Self {
        data.spec_to_buffer()
    }
}

/// Qualifier of set point command
#[derive(Debug, Copy, Clone, Eq, PartialEq, Default, Structural)]
pub struct QL {
    /// 0 = default, 1.. - reserved
    pub ql: u8,
}

impl QL {
    /// Bits 0 to 6.
    pub open spec fn spec_from_u8(v: u8) -> QL {
        QL {
            ql: v & 0b0111_1111,
        }
    }

    /// The byte that holds this value.
    pub open spec fn spec_to_u8(self) -> u8 {
        self.ql & 0b0111_1111
    }

    proof fn lemma_bits(ql: u8)
        by (bit_vector)
        requires
            ql < 128,
        ensures
            ({
                let v = ql & 0b0111_1111;
                &&& (v & 0b0111_1111) == ql
                &&& v < 128
                &&& v == ql
            }),
    {
    }

    /// Whether the value is one that reading can give: the qualifier fits in seven bits.
    pub open spec fn spec_in_range(self) -> bool {
        self.ql < 128
    }

    /// A value in range is read back from its byte.
    pub proof fn lemma_round_trip(self)
        requires
            self.spec_in_range(),
        ensures
            QL::spec_from_u8(self.spec_to_u8()) == self,
            self.spec_to_u8() < 128,
            self.spec_to_u8() == self.ql,
    {
        QL::lemma_bits(self.ql);
    }
}

impl From<u8> for QL {
    fn from(v: u8) -> (r: Self) {
        QL {
            ql: v & 0b0111_1111,
        }
    }
}

impl vstd::std_specs::convert::FromSpecImpl<u8> for QL {
    open spec fn obeys_from_spec() -> bool {
        true
    }

    open spec fn from_spec(v: u8) -> Self {
        QL::spec_from_u8(v)
    }
}

impl From<QL> for u8 {
    fn from(data: QL) -> (r: u8) {
        data.ql & 0b0111_1111
    }
}

impl vstd::std_specs::convert::FromSpecImpl<QL> for u8 {
    open spec fn obeys_from_spec() -> bool {
        true
    }

    open spec fn from_spec(data: QL) -> Self {
        data.spec_to_u8()
    }
}

/// Qualifier of set point command
#[derive(Debug, Copy, Clone, Eq, PartialEq, Default, Structural)]
pub struct QOS {
    /// Select/execute
    pub se: SelectExecute,
    /// Qualifier
    pub ql: QL,
}

impl QOS {
    /// Bit 7: select or execute. Bits 0 to 6: the qualifier.
    pub open spec fn spec_from_u8(v: u8) -> QOS {
        QOS {
            se: SelectExecute::spec_from_u8(v >> 7),
            ql: QL::spec_from_u8(v),
        }
    }

    /// The byte that holds this value.
    pub open spec fn spec_to_u8(self) -> u8 {
        (self.se.spec_to_u8() << 7) | self.ql.spec_to_u8()
    }

    proof fn lemma_bits(se: u8, ql: u8)
        by (bit_vector)
        requires
            se <= 1,
            ql < 128,
        ensures
            ({
                let v = (se << 7) | ql;
                &&& (v >> 7) == se
                &&& (v & 0b0111_1111) == ql
            }),
    {
    }

    /// Whether the value is one that reading can give: the qualifier fits in seven bits.
    pub open spec fn spec_in_range(self) -> bool {
        self.ql.spec_in_range()
    }

    /// A value in range is read back from its byte.
    pub proof fn lemma_round_trip(self)
        requires
            self.spec_in_range(),
        ensures
            QOS::spec_from_u8(self.spec_to_u8()) == self,
    {
        self.se.lemma_round_trip();
        self.ql.lemma_round_trip();
        QOS::lemma_bits(self.se.spec_to_u8(), self.ql.spec_to_u8());
    }
}

impl From<u8> for QOS {
    fn from(v: u8) -> (r: Self) {
        QOS {
            se: SelectExecute::from(v >> 7),
            ql: QL::from(v),
        }
    }
}

impl vstd::std_specs::convert::FromSpecImpl<u8> for QOS {
    open spec fn obeys_from_spec() -> bool {
        true
    }

    open spec fn from_spec(v: u8) -> Self {
        QOS::spec_from_u8(v)
    }
}

impl From<QOS> for u8 {
    fn from(data: QOS) -> (r: u8) {
        (data.se.code() << 7) | u8::from(data.ql)
    }
}

impl vstd::std_specs::convert::FromSpecImpl<QOS> for u8 {
    open spec fn obeys_from_spec() -> bool {
        true
    }

    open spec fn from_spec(data: QOS) -> Self {
        data.spec_to_u8()
    }
}

/// Set point command, normalized value
#[derive(Debug, Copy, Clone, Eq, PartialEq, Default, Structural)]
pub struct C_SE_NA_1 {
    /// Normalized value
    pub nva: NVA,
    /// Quality descriptor
    pub qos: QOS,
}

impl C_SE_NA_1 {
    /// What the first 3 bytes of a value buffer spell.
    pub open spec fn spec_from_buffer(buf: DataBuffer) -> C_SE_NA_1 {
        C_SE_NA_1 {
            nva: NVA::spec_from_bytes([buf[0], buf[1]]),
            qos: QOS::spec_from_u8(buf[2]),
        }
    }

    /// The value buffer that holds this payload, zero past its bytes.
    pub open spec fn spec_to_buffer(self) -> DataBuffer {
        let nva = self.nva.spec_to_bytes();
        [nva[0], nva[1], self.qos.spec_to_u8(), 0, 0, 0, 0, 0, 0, 0, 0, 0]
    }

    /// Whether the payload is one that reading can give: every part of it is in range.
    pub open spec fn spec_in_range(self) -> bool {
        self.qos.spec_in_range()
    }

    /// A payload in range is read back from its value buffer.
    pub proof fn lemma_round_trip(self)
        requires
            self.spec_in_range(),
        ensures
            C_SE_NA_1::spec_from_buffer(self.spec_to_buffer()) == self,
    {
        self.nva.lemma_round_trip();
        self.qos.lemma_round_trip();
    }
}

impl From<DataBuffer> for C_SE_NA_1 {
    fn from(buf: DataBuffer) -> (r: Self) {
        C_SE_NA_1 {
            nva: NVA::from([buf[0], buf[1]]),
            qos: QOS::from(buf[2]),
        }
    }
}

impl vstd::std_specs::convert::FromSpecImpl<DataBuffer> for C_SE_NA_1 {
    open spec fn obeys_from_spec() -> bool {
        true
    }

    open spec fn from_spec(buf: DataBuffer) -> Self {
        C_SE_NA_1::spec_from_buffer(buf)
    }
}

impl From<C_SE_NA_1> for DataBuffer {
    fn from(data: C_SE_NA_1) -> (r: DataBuffer) {
        let nva: [u8; 2] = <[u8; 2]>::from(data.nva);
        [nva[0], nva[1], u8::from(data.qos), 0, 0, 0, 0, 0, 0, 0, 0, 0]
    }
}

impl vstd::std_specs::convert::FromSpecImpl<C_SE_NA_1> for DataBuffer {
    open spec fn obeys_from_spec() -> bool {
        true
    }

    open spec fn from_spec(data: C_SE_NA_1) -> Self {
        data.spec_to_buffer()
    }
}

/// Set point command, scaled value
#[derive(Debug, Copy, Clone, Eq, PartialEq, Default, Structural)]
pub struct C_SE_NB_1 {
    /// Scaled value
    pub sva: SVA,
    /// Quality descriptor
    pub qos: QOS,
}

impl C_SE_NB_1 {
    /// What the first 3 bytes of a value buffer spell.
    pub open spec fn spec_from_buffer(buf: DataBuffer) -> C_SE_NB_1 {
        C_SE_NB_1 {
            sva: SVA::spec_from_bytes([buf[0], buf[1]]),
            qos: QOS::spec_from_u8(buf[2]),
        }
    }

    /// The value buffer that holds this payload, zero past its bytes.
    pub open spec fn spec_to_buffer(self) -> DataBuffer {
        let sva = self.sva.spec_to_bytes();
        [sva[0], sva[1], self.qos.spec_to_u8(), 0, 0, 0, 0, 0, 0, 0, 0, 0]
    }

    /// Whether the payload is one that reading can give: every part of it is in range.
    pub open spec fn spec_in_range(self) -> bool {
        self.qos.spec_in_range()
    }

    /// A payload in range is read back from its value buffer.
    pub proof fn lemma_round_trip(self)
        requires
            self.spec_in_range(),
        ensures
            C_SE_NB_1::spec_from_buffer(self.spec_to_buffer()) == self,
    {
        self.sva.lemma_round_trip();
        self.qos.lemma_round_trip();
    }
}

impl From<DataBuffer> for C_SE_NB_1 {
    fn from(buf: DataBuffer) -> (r: Self) {
        C_SE_NB_1 {
            sva: SVA::from([buf[0], buf[1]]),
            qos: QOS::from(buf[2]),
        }
    }
}

impl vstd::std_specs::convert::FromSpecImpl<DataBuffer> for C_SE_NB_1 {
    open spec fn obeys_from_spec() -> bool {
        true
    }

    open spec fn from_spec(buf: DataBuffer) -> Self {
        C_SE_NB_1::spec_from_buffer(buf)
    }
}

impl From<C_SE_NB_1> for DataBuffer {
    fn from(data: C_SE_NB_1) -> (r: DataBuffer) {
        let sva: [u8; 2] = <[u8; 2]>::from(data.sva);
        [sva[0], sva[1], u8::from(data.qos), 0, 0, 0, 0, 0, 0, 0, 0, 0]
    }
}

impl vstd::std_specs::convert::FromSpecImpl<C_SE_NB_1> for DataBuffer {
    open spec fn obeys_from_spec() -> bool {
        true
    }

    open spec fn from_spec(data: C_SE_NB_1) -> Self {
        data.spec_to_buffer()
    }
}

/// Set point command, short floating point value
#[derive(Debug, Copy, Clone, Eq, PartialEq, Default, Structural)]
pub struct C_SE_NC_1 {
    /// Short floating point value
    pub r32: R32,
    /// Quality descriptor
    pub qos: QOS,
}

impl C_SE_NC_1 {
    /// What the first 5 bytes of a value buffer spell.
    pub open spec fn spec_from_buffer(buf: DataBuffer) -> C_SE_NC_1 {
        C_SE_NC_1 {
            r32: R32::spec_from_bytes([buf[0], buf[1], buf[2], buf[3]]),
            qos: QOS::spec_from_u8(buf[4]),
        }
    }

    /// The value buffer that holds this payload, zero past its bytes.
    pub open spec fn spec_to_buffer(self) -> DataBuffer {
        let r32 = self.r32.spec_to_bytes();
        [r32[0], r32[1], r32[2], r32[3], self.qos.spec_to_u8(), 0, 0, 0, 0, 0, 0, 0]
    }

    /// Whether the payload is one that reading can give: every part of it is in range.
    pub open spec fn spec_in_range(self) -> bool {
        self.qos.spec_in_range()
    }

    /// A payload in range is read back from its value buffer.
    pub proof fn lemma_round_trip(self)
        requires
            self.spec_in_range(),
        ensures
            C_SE_NC_1::spec_from_buffer(self.spec_to_buffer()) == self,
    {
        self.r32.lemma_round_trip();
        self.qos.lemma_round_trip();
    }
}

impl From<DataBuffer> for C_SE_NC_1 {
    fn from(buf: DataBuffer) -> (r: Self) {
        C_SE_NC_1 {
            r32: R32::from([buf[0], buf[1], buf[2], buf[3]]),
            qos: QOS::from(buf[4]),
        }
    }
}

impl vstd::std_specs::convert::FromSpecImpl<DataBuffer> for C_SE_NC_1 {
    open spec fn obeys_from_spec() -> bool {
        true
    }

    open spec fn from_spec(buf: DataBuffer) -> Self {
        C_SE_NC_1::spec_from_buffer(buf)
    }
}

impl From<C_SE_NC_1> for DataBuffer {
    fn from(data: C_SE_NC_1) -> (r: DataBuffer) {
        let r32: [u8; 4] = <[u8; 4]>::from(data.r32);
        [r32[0], r32[1], r32[2], r32[3], u8::from(data.qos), 0, 0, 0, 0, 0, 0, 0]
    }
}

impl vstd::std_specs::convert::FromSpecImpl<C_SE_NC_1> for DataBuffer {
    open spec fn obeys_from_spec() -> bool {
        true
    }

    open spec fn from_spec(data: C_SE_NC_1) -> Self {
        data.spec_to_buffer()
    }
}

/// Bit string of 32 bits command
#[derive(Debug, Copy, Clone, Eq, PartialEq, Default, Structural)]
pub struct C_BO_NA_1 {
    /// Bit string of 32 bits
    pub bsi: BSI,
}

impl C_BO_NA_1 {
    /// What the first 4 bytes of a value buffer spell.
    pub open spec fn spec_from_buffer(buf: DataBuffer) -> C_BO_NA_1 {
        C_BO_NA_1 {
            bsi: BSI::spec_from_bytes([buf[0], buf[1], buf[2], buf[3]]),
        }
    }

    /// The value buffer that holds this payload, zero past its bytes.
    pub open spec fn spec_to_buffer(self) -> DataBuffer {
        let bsi = self.bsi.spec_to_bytes();
        [bsi[0], bsi[1], bsi[2], bsi[3], 0, 0, 0, 0, 0, 0, 0, 0]
    }

    /// Every payload is read back from its value buffer.
    pub proof fn lemma_round_trip(self)
        ensures
            C_BO_NA_1::spec_from_buffer(self.spec_to_buffer()) == self,
    {
        self.bsi.lemma_round_trip();
    }
}

impl From<DataBuffer> for C_BO_NA_1 {
    fn from(buf: DataBuffer) -> (r: Self) {
        C_BO_NA_1 {
            bsi: BSI::from([buf[0], buf[1], buf[2], buf[3]]),
        }
    }
}

impl vstd::std_specs::convert::FromSpecImpl<DataBuffer> for C_BO_NA_1 {
    open spec fn obeys_from_spec() -> bool {
        true
    }

    open spec fn from_spec(buf: DataBuffer) -> Self {
        C_BO_NA_1::spec_from_buffer(buf)
    }
}

impl From<C_BO_NA_1> for DataBuffer {
    fn from(data: C_BO_NA_1) -> (r: DataBuffer) {
        let bsi: [u8; 4] = <[u8; 4]>::from(data.bsi);
        [bsi[0], bsi[1], bsi[2], bsi[3], 0, 0, 0, 0, 0, 0, 0, 0]
    }
}

impl vstd::std_specs::convert::FromSpecImpl<C_BO_NA_1> for DataBuffer {
    open spec fn obeys_from_spec() -> bool {
        true
    }

    open spec fn from_spec(data: C_BO_NA_1) -> Self {
        data.spec_to_buffer()
    }
}

/// Single command with time tag
#[derive(Debug, Copy, Clone, Eq, PartialEq, Default, Structural)]
pub struct C_SC_TA_1 {
    /// Single command
    pub sco: SCO,
    /// Time tag
    pub time: CP56Time2a,
}

impl C_SC_TA_1 {
    /// What the first 8 bytes of a value buffer spell.
    pub open spec fn spec_from_buffer(buf: DataBuffer) -> C_SC_TA_1 {
        C_SC_TA_1 {
            sco: SCO::spec_from_u8(buf[0]),
            time: CP56Time2a::spec_from_bytes(
                [buf[1], buf[2], buf[3], buf[4], buf[5], buf[6], buf[7]],
            ),
        }
    }

    /// The value buffer that holds this payload, zero past its bytes.
    pub open spec fn spec_to_buffer(self) -> DataBuffer {
        let time = self.time.spec_to_bytes();
        [
            self.sco.spec_to_u8(),
            time[0],
            time[1],
            time[2],
            time[3],
            time[4],
            time[5],
            time[6],
            0,
            0,
            0,
            0,
        ]
    }

    /// Whether the payload is one that reading can give: every part of it is in range.
    pub open spec fn spec_in_range(self) -> bool {
        self.sco.spec_in_range() && spec_cp56_in_range(self.time)
    }

    /// A payload in range is read back from its value buffer.
    pub proof fn lemma_round_trip(self)
        requires
            self.spec_in_range(),
        ensures
            C_SC_TA_1::spec_from_buffer(self.spec_to_buffer()) == self,
    {
        self.sco.lemma_round_trip();
        lemma_cp56_round_trip(self.time);
    }
}

impl From<DataBuffer> for C_SC_TA_1 {
    fn from(buf: DataBuffer) -> (r: Self) {
        C_SC_TA_1 {
            sco: SCO::from(buf[0]),
            time: CP56Time2a::from([buf[1], buf[2], buf[3], buf[4], buf[5], buf[6], buf[7]]),
        }
    }
}

impl vstd::std_specs::convert::FromSpecImpl<DataBuffer> for C_SC_TA_1 {
    open spec fn obeys_from_spec() -> bool {
        true
    }

    open spec fn from_spec(buf: DataBuffer) -> Self {
        C_SC_TA_1::spec_from_buffer(buf)
    }
}

impl From<C_SC_TA_1> for DataBuffer {
    fn from(data: C_SC_TA_1) -> (r: DataBuffer) {
        let time: [u8; 7] = <[u8; 7]>::from(data.time);
        [
            u8::from(data.sco),
            time[0],
            time[1],
            time[2],
            time[3],
            time[4],
            time[5],
            time[6],
            0,
            0,
            0,
            0,
        ]
    }
}

impl vstd::std_specs::convert::FromSpecImpl<C_SC_TA_1> for DataBuffer {
    open spec fn obeys_from_spec() -> bool {
        true
    }

    open spec fn from_spec(data: C_SC_TA_1) -> Self {
        data.spec_to_buffer()
    }
}

/// Double command with time tag
#[derive(Debug, Copy, Clone, Eq, PartialEq, Default, Structural)]
pub struct C_DC_TA_1 {
    /// Double command
    pub dco: DCO,
    /// Time tag
    pub time: CP56Time2a,
}

impl C_DC_TA_1 {
    /// What the first 8 bytes of a value buffer spell.
    pub open spec fn spec_from_buffer(buf: DataBuffer) -> C_DC_TA_1 {
        C_DC_TA_1 {
            dco: DCO::spec_from_u8(buf[0]),
            time: CP56Time2a::spec_from_bytes(
                [buf[1], buf[2], buf[3], buf[4], buf[5], buf[6], buf[7]],
            ),
        }
    }

    /// The value buffer that holds this payload, zero past its bytes.
    pub open spec fn spec_to_buffer(self) -> DataBuffer {
        let time = self.time.spec_to_bytes();
        [
            self.dco.spec_to_u8(),
            time[0],
            time[1],
            time[2],
            time[3],
            time[4],
            time[5],
            time[6],
            0,
            0,
            0,
            0,
        ]
    }

    /// Whether the payload is one that reading can give: every part of it is in range.
    pub open spec fn spec_in_range(self) -> bool {
        self.dco.spec_in_range() && spec_cp56_in_range(self.time)
    }

    /// A payload in range is read back from its value buffer.
    pub proof fn lemma_round_trip(self)
        requires
            self.spec_in_range(),
        ensures
            C_DC_TA_1::spec_from_buffer(self.spec_to_buffer()) == self,
    {
        self.dco.lemma_round_trip();
        lemma_cp56_round_trip(self.time);
    }
}

impl From<DataBuffer> for C_DC_TA_1 {
    fn from(buf: DataBuffer) -> (r: Self) {
        C_DC_TA_1 {
            dco: DCO::from(buf[0]),
            time: CP56Time2a::from([buf[1], buf[2], buf[3], buf[4], buf[5], buf[6], buf[7]]),
        }
    }
}

impl vstd::std_specs::convert::FromSpecImpl<DataBuffer> for C_DC_TA_1 {
    open spec fn obeys_from_spec() -> bool {
        true
    }

    open spec fn from_spec(buf: DataBuffer) -> Self {
        C_DC_TA_1::spec_from_buffer(buf)
    }
}

impl From<C_DC_TA_1> for DataBuffer {
    fn from(data: C_DC_TA_1) -> (r: DataBuffer) {
        let time: [u8; 7] = <[u8; 7]>::from(data.time);
        [
            u8::from(data.dco),
            time[0],
            time[1],
            time[2],
            time[3],
            time[4],
            time[5],
            time[6],
            0,
            0,
            0,
            0,
        ]
    }
}

impl vstd::std_specs::convert::FromSpecImpl<C_DC_TA_1> for DataBuffer {
    open spec fn obeys_from_spec() -> bool {
        true
    }

    open spec fn from_spec(data: C_DC_TA_1) -> Self {
        data.spec_to_buffer()
    }
}

/// Regulating step command with time tag
#[derive(Debug, Copy, Clone, Eq, PartialEq, Default, Structural)]
pub struct C_RC_TA_1 {
    /// Regulating step command
    pub rco: RCO,
    /// Time tag
    pub time: CP56Time2a,
}

impl C_RC_TA_1 {
    /// What the first 8 bytes of a value buffer spell.
    pub open spec fn spec_from_buffer(buf: DataBuffer) -> C_RC_TA_1 {
        C_RC_TA_1 {
            rco: RCO::spec_from_u8(buf[0]),
            time: CP56Time2a::spec_from_bytes(
                [buf[1], buf[2], buf[3], buf[4], buf[5], buf[6], buf[7]],
            ),
        }
    }

    /// The value buffer that holds this payload, zero past its bytes.
    pub open spec fn spec_to_buffer(self) -> DataBuffer {
        let time = self.time.spec_to_bytes();
        [
            self.rco.spec_to_u8(),
            time[0],
            time[1],
            time[2],
            time[3],
            time[4],
            time[5],
            time[6],
            0,
            0,
            0,
            0,
        ]
    }

    /// Whether the payload is one that reading can give: every part of it is in range.
    pub open spec fn spec_in_range(self) -> bool {
        self.rco.spec_in_range() && spec_cp56_in_range(self.time)
    }

    /// A payload in range is read back from its value buffer.
    pub proof fn lemma_round_trip(self)
        requires
            self.spec_in_range(),
        ensures
            C_RC_TA_1::spec_from_buffer(self.spec_to_buffer()) == self,
    {
        self.rco.lemma_round_trip();
        lemma_cp56_round_trip(self.time);
    }
}

impl From<DataBuffer> for C_RC_TA_1 {
    fn from(buf: DataBuffer) -> (r: Self) {
        C_RC_TA_1 {
            rco: RCO::from(buf[0]),
            time: CP56Time2a::from([buf[1], buf[2], buf[3], buf[4], buf[5], buf[6], buf[7]]),
        }
    }
}

impl vstd::std_specs::convert::FromSpecImpl<DataBuffer> for C_RC_TA_1 {
    open spec fn obeys_from_spec() -> bool {
        true
    }

    open spec fn from_spec(buf: DataBuffer) -> Self {
        C_RC_TA_1::spec_from_buffer(buf)
    }
}

impl From<C_RC_TA_1> for DataBuffer {
    fn from(data: C_RC_TA_1) -> (r: DataBuffer) {
        let time: [u8; 7] = <[u8; 7]>::from(data.time);
        [
            u8::from(data.rco),
            time[0],
            time[1],
            time[2],
            time[3],
            time[4],
            time[5],
            time[6],
            0,
            0,
            0,
            0,
        ]
    }
}

impl vstd::std_specs::convert::FromSpecImpl<C_RC_TA_1> for DataBuffer {
    open spec fn obeys_from_spec() -> bool {
        true
    }

    open spec fn from_spec(data: C_RC_TA_1) -> Self {
        data.spec_to_buffer()
    }
}

/// Set point command, normalized value with time tag
#[derive(Debug, Copy, Clone, Eq, PartialEq, Default, Structural)]
pub struct C_SE_TA_1 {
    /// Normalized value
    pub nva: NVA,
    /// Quality descriptor
    pub qos: QOS,
    /// Time tag
    pub time: CP56Time2a,
}

impl C_SE_TA_1 {
    /// What the first 10 bytes of a value buffer spell.
    pub open spec fn spec_from_buffer(buf: DataBuffer) -> C_SE_TA_1 {
        C_SE_TA_1 {
            nva: NVA::spec_from_bytes([buf[0], buf[1]]),
            qos: QOS::spec_from_u8(buf[2]),
            time: CP56Time2a::spec_from_bytes(
                [buf[3], buf[4], buf[5], buf[6], buf[7], buf[8], buf[9]],
            ),
        }
    }

    /// The value buffer that holds this payload, zero past its bytes.
    pub open spec fn spec_to_buffer(self) -> DataBuffer {
        let nva = self.nva.spec_to_bytes();
        let time = self.time.spec_to_bytes();
        [
            nva[0],
            nva[1],
            self.qos.spec_to_u8(),
            time[0],
            time[1],
            time[2],
            time[3],
            time[4],
            time[5],
            time[6],
            0,
            0,
        ]
    }

    /// Whether the payload is one that reading can give: every part of it is in range.
    pub open spec fn spec_in_range(self) -> bool {
        self.qos.spec_in_range() && spec_cp56_in_range(self.time)
    }

    /// A payload in range is read back from its value buffer.
    pub proof fn lemma_round_trip(self)
        requires
            self.spec_in_range(),
        ensures
            C_SE_TA_1::spec_from_buffer(self.spec_to_buffer()) == self,
    {
        self.nva.lemma_round_trip();
        self.qos.lemma_round_trip();
        lemma_cp56_round_trip(self.time);
    }
}

impl From<DataBuffer> for C_SE_TA_1 {
    fn from(buf: DataBuffer) -> (r: Self) {
        C_SE_TA_1 {
            nva: NVA::from([buf[0], buf[1]]),
            qos: QOS::from(buf[2]),
            time: CP56Time2a::from([buf[3], buf[4], buf[5], buf[6], buf[7], buf[8], buf[9]]),
        }
    }
}

impl vstd::std_specs::convert::FromSpecImpl<DataBuffer> for C_SE_TA_1 {
    open spec fn obeys_from_spec() -> bool {
        true
    }

    open spec fn from_spec(buf: DataBuffer) -> Self {
        C_SE_TA_1::spec_from_buffer(buf)
    }
}

impl From<C_SE_TA_1> for DataBuffer {
    fn from(data: C_SE_TA_1) -> (r: DataBuffer) {
        let nva: [u8; 2] = <[u8; 2]>::from(data.nva);
        let time: [u8; 7] = <[u8; 7]>::from(data.time);
        [
            nva[0],
            nva[1],
            u8::from(data.qos),
            time[0],
            time[1],
            time[2],
            time[3],
            time[4],
            time[5],
            time[6],
            0,
            0,
        ]
    }
}

impl vstd::std_specs::convert::FromSpecImpl<C_SE_TA_1> for DataBuffer {
    open spec fn obeys_from_spec() -> bool {
        true
    }

    open spec fn from_spec(data: C_SE_TA_1) -> Self {
        data.spec_to_buffer()
    }
}

/// Set point command, scaled value with time tag
#[derive(Debug, Copy, Clone, Eq, PartialEq, Default, Structural)]
pub struct C_SE_TB_1 {
    /// Scaled value
    pub sva: SVA,
    /// Quality descriptor
    pub qos: QOS,
    /// Time tag
    pub time: CP56Time2a,
}

impl C_SE_TB_1 {
    /// What the first 10 bytes of a value buffer spell.
    pub open spec fn spec_from_buffer(buf: DataBuffer) -> C_SE_TB_1 {
        C_SE_TB_1 {
            sva: SVA::spec_from_bytes([buf[0], buf[1]]),
            qos: QOS::spec_from_u8(buf[2]),
            time: CP56Time2a::spec_from_bytes(
                [buf[3], buf[4], buf[5], buf[6], buf[7], buf[8], buf[9]],
            ),
        }
    }

    /// The value buffer that holds this payload, zero past its bytes.
    pub open spec fn spec_to_buffer(self) -> DataBuffer {
        let sva = self.sva.spec_to_bytes();
        let time = self.time.spec_to_bytes();
        [
            sva[0],
            sva[1],
            self.qos.spec_to_u8(),
            time[0],
            time[1],
            time[2],
            time[3],
            time[4],
            time[5],
            time[6],
            0,
            0,
        ]
    }

    /// Whether the payload is one that reading can give: every part of it is in range.
    pub open spec fn spec_in_range(self) -> bool {
        self.qos.spec_in_range() && spec_cp56_in_range(self.time)
    }

    /// A payload in range is read back from its value buffer.
    pub proof fn lemma_round_trip(self)
        requires
            self.spec_in_range(),
        ensures
            C_SE_TB_1::spec_from_buffer(self.spec_to_buffer()) == self,
    {
        self.sva.lemma_round_trip();
        self.qos.lemma_round_trip();
        lemma_cp56_round_trip(self.time);
    }
}

impl From<DataBuffer> for C_SE_TB_1 {
    fn from(buf: DataBuffer) -> (r: Self) {
        C_SE_TB_1 {
            sva: SVA::from([buf[0], buf[1]]),
            qos: QOS::from(buf[2]),
            time: CP56Time2a::from([buf[3], buf[4], buf[5], buf[6], buf[7], buf[8], buf[9]]),
        }
    }
}

impl vstd::std_specs::convert::FromSpecImpl<DataBuffer> for C_SE_TB_1 {
    open spec fn obeys_from_spec() -> bool {
        true
    }

    open spec fn from_spec(buf: DataBuffer) -> Self {
        C_SE_TB_1::spec_from_buffer(buf)
    }
}

impl From<C_SE_TB_1> for DataBuffer {
    fn from(data: C_SE_TB_1) -> (r: DataBuffer) {
        let sva: [u8; 2] = <[u8; 2]>::from(data.sva);
        let time: [u8; 7] = <[u8; 7]>::from(data.time);
        [
            sva[0],
            sva[1],
            u8::from(data.qos),
            time[0],
            time[1],
            time[2],
            time[3],
            time[4],
            time[5],
            time[6],
            0,
            0,
        ]
    }
}

impl vstd::std_specs::convert::FromSpecImpl<C_SE_TB_1> for DataBuffer {
    open spec fn obeys_from_spec() -> bool {
        true
    }

    open spec fn from_spec(data: C_SE_TB_1) -> Self {
        data.spec_to_buffer()
    }
}

/// Set point command, short floating point value with time tag
#[derive(Debug, Copy, Clone, Eq, PartialEq, Default, Structural)]
pub struct C_SE_TC_1 {
    /// Short floating point value
    pub r32: R32,
    /// Quality descriptor
    pub qos: QOS,
    /// Time tag
    pub time: CP56Time2a,
}

impl C_SE_TC_1 {
    /// What the first 12 bytes of a value buffer spell.
    pub open spec fn spec_from_buffer(buf: DataBuffer) -> C_SE_TC_1 {
        C_SE_TC_1 {
            r32: R32::spec_from_bytes([buf[0], buf[1], buf[2], buf[3]]),
            qos: QOS::spec_from_u8(buf[4]),
            time: CP56Time2a::spec_from_bytes(
                [buf[5], buf[6], buf[7], buf[8], buf[9], buf[10], buf[11]],
            ),
        }
    }

    /// The value buffer that holds this payload, zero past its bytes.
    pub open spec fn spec_to_buffer(self) -> DataBuffer {
        let r32 = self.r32.spec_to_bytes();
        let time = self.time.spec_to_bytes();
        [
            r32[0],
            r32[1],
            r32[2],
            r32[3],
            self.qos.spec_to_u8(),
            time[0],
            time[1],
            time[2],
            time[3],
            time[4],
            time[5],
            time[6],
        ]
    }

    /// Whether the payload is one that reading can give: every part of it is in range.
    pub open spec fn spec_in_range(self) -> bool {
        self.qos.spec_in_range() && spec_cp56_in_range(self.time)
    }

    /// A payload in range is read back from its value buffer.
    pub proof fn lemma_round_trip(self)
        requires
            self.spec_in_range(),
        ensures
            C_SE_TC_1::spec_from_buffer(self.spec_to_buffer()) == self,
    {
        self.r32.lemma_round_trip();
        self.qos.lemma_round_trip();
        lemma_cp56_round_trip(self.time);
    }
}

impl From<DataBuffer> for C_SE_TC_1 {
    fn from(buf: DataBuffer) -> (r: Self) {
        C_SE_TC_1 {
            r32: R32::from([buf[0], buf[1], buf[2], buf[3]]),
            qos: QOS::from(buf[4]),
            time: CP56Time2a::from([buf[5], buf[6], buf[7], buf[8], buf[9], buf[10], buf[11]]),
        }
    }
}

impl vstd::std_specs::convert::FromSpecImpl<DataBuffer> for C_SE_TC_1 {
    open spec fn obeys_from_spec() -> bool {
        true
    }

    open spec fn from_spec(buf: DataBuffer) -> Self {
        C_SE_TC_1::spec_from_buffer(buf)
    }
}

impl From<C_SE_TC_1> for DataBuffer {
    fn from(data: C_SE_TC_1) -> (r: DataBuffer) {
        let r32: [u8; 4] = <[u8; 4]>::from(data.r32);
        let time: [u8; 7] = <[u8; 7]>::from(data.time);
        [
            r32[0],
            r32[1],
            r32[2],
            r32[3],
            u8::from(data.qos),
            time[0],
            time[1],
            time[2],
            time[3],
            time[4],
            time[5],
            time[6],
        ]
    }
}

impl vstd::std_specs::convert::FromSpecImpl<C_SE_TC_1> for DataBuffer {
    open spec fn obeys_from_spec() -> bool {
        true
    }

    open spec fn from_spec(data: C_SE_TC_1) -> Self {
        data.spec_to_buffer()
    }
}

/// Bit string of 32 bits command with time tag
#[derive(Debug, Copy, Clone, Eq, PartialEq, Default, Structural)]
pub struct C_BO_TB_1 {
    /// Bit string of 32 bits
    pub bsi: BSI,
    /// Time tag
    pub time: CP56Time2a,
}

impl C_BO_TB_1 {
    /// What the first 11 bytes of a value buffer spell.
    pub open spec fn spec_from_buffer(buf: DataBuffer) -> C_BO_TB_1 {
        C_BO_TB_1 {
            bsi: BSI::spec_from_bytes([buf[0], buf[1], buf[2], buf[3]]),
            time: CP56Time2a::spec_from_bytes(
                [buf[4], buf[5], buf[6], buf[7], buf[8], buf[9], buf[10]],
            ),
        }
    }

    /// The value buffer that holds this payload, zero past its bytes.
    pub open spec fn spec_to_buffer(self) -> DataBuffer {
        let bsi = self.bsi.spec_to_bytes();
        let time = self.time.spec_to_bytes();
        [
            bsi[0],
            bsi[1],
            bsi[2],
            bsi[3],
            time[0],
            time[1],
            time[2],
            time[3],
            time[4],
            time[5],
            time[6],
            0,
        ]
    }

    /// Whether the payload is one that reading can give: every part of it is in range.
    pub open spec fn spec_in_range(self) -> bool {
        spec_cp56_in_range(self.time)
    }

    /// A payload in range is read back from its value buffer.
    pub proof fn lemma_round_trip(self)
        requires
            self.spec_in_range(),
        ensures
            C_BO_TB_1::spec_from_buffer(self.spec_to_buffer()) == self,
    {
        self.bsi.lemma_round_trip();
        lemma_cp56_round_trip(self.time);
    }
}

impl From<DataBuffer> for C_BO_TB_1 {
    fn from(buf: DataBuffer) -> (r: Self) {
        C_BO_TB_1 {
            bsi: BSI::from([buf[0], buf[1], buf[2], buf[3]]),
            time: CP56Time2a::from([buf[4], buf[5], buf[6], buf[7], buf[8], buf[9], buf[10]]),
        }
    }
}

impl vstd::std_specs::convert::FromSpecImpl<DataBuffer> for C_BO_TB_1 {
    open spec fn obeys_from_spec() -> bool {
        true
    }

    open spec fn from_spec(buf: DataBuffer) -> Self {
        C_BO_TB_1::spec_from_buffer(buf)
    }
}

impl From<C_BO_TB_1> for DataBuffer {
    fn from(data: C_BO_TB_1) -> (r: DataBuffer) {
        let bsi: [u8; 4] = <[u8; 4]>::from(data.bsi);
        let time: [u8; 7] = <[u8; 7]>::from(data.time);
        [
            bsi[0],
            bsi[1],
            bsi[2],
            bsi[3],
            time[0],
            time[1],
            time[2],
            time[3],
            time[4],
            time[5],
            time[6],
            0,
        ]
    }
}

impl vstd::std_specs::convert::FromSpecImpl<C_BO_TB_1> for DataBuffer {
    open spec fn obeys_from_spec() -> bool {
        true
    }

    open spec fn from_spec(data: C_BO_TB_1) -> Self {
        data.spec_to_buffer()
    }
}

/// Local parameter change
#[derive(Debug, Copy, Clone, Eq, PartialEq, Default, Structural)]
pub enum LPC {
    /// No change
    #[default]
    NoChange,
    /// Changed
    Changed,
}

impl LPC {
    /// The value that each number names.
    pub open spec fn spec_from_u8(value: u8) -> LPC {
        match value {
            0 => LPC::NoChange,
            _ => LPC::Changed,
        }
    }

    /// The number of each value.
    pub open spec fn spec_to_u8(self) -> u8 {
        match self {
            LPC::NoChange => 0,
            LPC::Changed => 1,
        }
    }

    /// The number of this value.
    pub fn code(self) -> (r: u8)
        ensures
            r == self.spec_to_u8(),
    {
        match self {
            LPC::NoChange => 0,
            LPC::Changed => 1,
        }
    }

    /// Every value is read back from its number.
    pub proof fn lemma_round_trip(self)
        ensures
            LPC::spec_from_u8(self.spec_to_u8()) == self,
    {
    }
}

impl From<u8> for LPC {
    fn from(value: u8) -> (r: Self) {
        match value {
            0 => LPC::NoChange,
            _ => LPC::Changed,
        }
    }
}

impl vstd::std_specs::convert::FromSpecImpl<u8> for LPC {
    open spec fn obeys_from_spec() -> bool {
        true
    }

    open spec fn from_spec(value: u8) -> Self {
        LPC::spec_from_u8(value)
    }
}

/// Cause of initialization
#[derive(Debug, Copy, Clone, Eq, PartialEq, Default, Structural)]
pub enum COI {
    /// Local power on
    #[default]
    LocalPowerOn,
    /// Local manual reset
    LocalManualReset,
    /// Remote reset
    RemoteReset,
    /// Other (custom)
    Other(u8),
}

impl COI {
    /// The value that each number names.
    pub open spec fn spec_from_u8(value: u8) -> COI {
        match value {
            0 => COI::LocalPowerOn,
            1 => COI::LocalManualReset,
            2 => COI::RemoteReset,
            v => COI::Other(v & 0b0111_1111),
        }
    }

    /// The number of each value.
    pub open spec fn spec_to_u8(self) -> u8 {
        match self {
            COI::LocalPowerOn => 0,
            COI::LocalManualReset => 1,
            COI::RemoteReset => 2,
            COI::Other(v) => v & 0b0111_1111,
        }
    }

    /// Whether the value is the one that its number names: `Other` holds no number
    /// that has a name of its own, nor one above 127.
    pub open spec fn spec_canonical(self) -> bool {
        match self {
            COI::Other(v) => v > 2 && v < 128,
            _ => true,
        }
    }

    /// A canonical value is read back from its number.
    pub proof fn lemma_round_trip(self)
        requires
            self.spec_canonical(),
        ensures
            COI::spec_from_u8(self.spec_to_u8()) == self,
    {
        if let COI::Other(v) = self {
            assert(v & 0b0111_1111 == v) by (bit_vector)
                requires
                    v < 128,
            ;
        }
    }
}

impl From<u8> for COI {
    fn from(value: u8) -> (r: Self) {
        match value {
            0 => COI::LocalPowerOn,
            1 => COI::LocalManualReset,
            2 => COI::RemoteReset,
            v => COI::Other(v & 0b0111_1111),
        }
    }
}

impl vstd::std_specs::convert::FromSpecImpl<u8> for COI {
    open spec fn obeys_from_spec() -> bool {
        true
    }

    open spec fn from_spec(value: u8) -> Self {
        COI::spec_from_u8(value)
    }
}

impl From<COI> for u8 {
    fn from(data: COI) -> (r: u8) {
        match data {
            COI::LocalPowerOn => 0,
            COI::LocalManualReset => 1,
            COI::RemoteReset => 2,
            COI::Other(v) => v & 0b0111_1111,
        }
    }
}

impl vstd::std_specs::convert::FromSpecImpl<COI> for u8 {
    open spec fn obeys_from_spec() -> bool {
        true
    }

    open spec fn from_spec(data: COI) -> Self {
        data.spec_to_u8()
    }
}

/// End of initialization
#[derive(Debug, Copy, Clone, Eq, PartialEq, Default, Structural)]
pub struct M_EI_NA_1 {
    /// Local parameter change
    pub lpc: LPC,
    /// Cause of initialization
    pub coi: COI,
}

impl M_EI_NA_1 {
    /// Bit 7 of the first byte: whether local parameters changed. The whole byte: the cause
    /// of initialisation.
    pub open spec fn spec_from_buffer(buf: DataBuffer) -> M_EI_NA_1 {
        M_EI_NA_1 { lpc: LPC::spec_from_u8(buf[0] >> 7), coi: COI::spec_from_u8(buf[0]) }
    }

    /// The value buffer that holds this payload, zero past its byte.
    pub open spec fn spec_to_buffer(self) -> DataBuffer {
        [(self.lpc.spec_to_u8() << 7) | self.coi.spec_to_u8(), 0, 0, 0, 0, 0, 0, 0, 0, 0, 0, 0]
    }
}

impl From<DataBuffer> for M_EI_NA_1 {
    fn from(buf: DataBuffer) -> (r: Self) {
        M_EI_NA_1 { lpc: LPC::from(buf[0] >> 7), coi: COI::from(buf[0]) }
    }
}

impl vstd::std_specs::convert::FromSpecImpl<DataBuffer> for M_EI_NA_1 {
    open spec fn obeys_from_spec() -> bool {
        true
    }

    open spec fn from_spec(buf: DataBuffer) -> Self {
        M_EI_NA_1::spec_from_buffer(buf)
    }
}

impl From<M_EI_NA_1> for DataBuffer {
    fn from(data: M_EI_NA_1) -> (r: DataBuffer) {
        [(data.lpc.code() << 7) | u8::from(data.coi), 0, 0, 0, 0, 0, 0, 0, 0, 0, 0, 0]
    }
}

impl vstd::std_specs::convert::FromSpecImpl<M_EI_NA_1> for DataBuffer {
    open spec fn obeys_from_spec() -> bool {
        true
    }

    open spec fn from_spec(data: M_EI_NA_1) -> Self {
        data.spec_to_buffer()
    }
}

/// Qualifier of interrogation
#[derive(Debug, Copy, Clone, Eq, PartialEq, Default, Structural)]
pub enum QOI {
    /// Unused
    #[default]
    Unused,
    /// Interrogation
    Inrogen,
    /// Interrogation
    Inro1,
    /// Interrogation
    Inro2,
    /// Interrogation
    Inro3,
    /// Interrogation
    Inro4,
    /// Interrogation
    Inro5,
    /// Interrogation
    Inro6,
    /// Interrogation
    Inro7,
    /// Interrogation
    Inro8,
    /// Interrogation
    Inro9,
    /// Interrogation
    Inro10,
    /// Interrogation
    Inro11,
    /// Interrogation
    Inro12,
    /// Interrogation
    Inro13,
    /// Interrogation
    Inro14,
    /// Interrogation
    Inro15,
    /// Interrogation
    Inro16,
    /// Other (custom)
    Other(u8),
}

impl QOI {
    /// The value that each number names.
    pub open spec fn spec_from_u8(value: u8) -> QOI {
        match value {
            0 => QOI::Unused,
            20 => QOI::Inrogen,
            21 => QOI::Inro1,
            22 => QOI::Inro2,
            23 => QOI::Inro3,
            24 => QOI::Inro4,
            25 => QOI::Inro5,
            26 => QOI::Inro6,
            27 => QOI::Inro7,
            28 => QOI::Inro8,
            29 => QOI::Inro9,
            30 => QOI::Inro10,
            31 => QOI::Inro11,
            32 => QOI::Inro12,
            33 => QOI::Inro13,
            34 => QOI::Inro14,
            35 => QOI::Inro15,
            36 => QOI::Inro16,
            v => QOI::Other(v),
        }
    }

    /// The number of each value.
    pub open spec fn spec_to_u8(self) -> u8 {
        match self {
            QOI::Unused => 0,
            QOI::Inrogen => 20,
            QOI::Inro1 => 21,
            QOI::Inro2 => 22,
            QOI::Inro3 => 23,
            QOI::Inro4 => 24,
            QOI::Inro5 => 25,
            QOI::Inro6 => 26,
            QOI::Inro7 => 27,
            QOI::Inro8 => 28,
            QOI::Inro9 => 29,
            QOI::Inro10 => 30,
            QOI::Inro11 => 31,
            QOI::Inro12 => 32,
            QOI::Inro13 => 33,
            QOI::Inro14 => 34,
            QOI::Inro15 => 35,
            QOI::Inro16 => 36,
            QOI::Other(v) => v,
        }
    }

    /// Whether the value is the one that its number names: `Other` holds no number
    /// that has a name of its own.
    pub open spec fn spec_canonical(self) -> bool {
        match self {
            QOI::Other(v) => v != 0 && !(20 <= v <= 36),
            _ => true,
        }
    }

    /// A canonical value is read back from its number.
    pub proof fn lemma_round_trip(self)
        requires
            self.spec_canonical(),
        ensures
            QOI::spec_from_u8(self.spec_to_u8()) == self,
    {
    }
}

impl From<u8> for QOI {
    fn from(value: u8) -> (r: Self) {
        match value {
            0 => QOI::Unused,
            20 => QOI::Inrogen,
            21 => QOI::Inro1,
            22 => QOI::Inro2,
            23 => QOI::Inro3,
            24 => QOI::Inro4,
            25 => QOI::Inro5,
            26 => QOI::Inro6,
            27 => QOI::Inro7,
            28 => QOI::Inro8,
            29 => QOI::Inro9,
            30 => QOI::Inro10,
            31 => QOI::Inro11,
            32 => QOI::Inro12,
            33 => QOI::Inro13,
            34 => QOI::Inro14,
            35 => QOI::Inro15,
            36 => QOI::Inro16,
            v => QOI::Other(v),
        }
    }
}

impl vstd::std_specs::convert::FromSpecImpl<u8> for QOI {
    open spec fn obeys_from_spec() -> bool {
        true
    }

    open spec fn from_spec(value: u8) -> Self {
        QOI::spec_from_u8(value)
    }
}

impl From<QOI> for u8 {
    fn from(data: QOI) -> (r: u8) {
        match data {
            QOI::Unused => 0,
            QOI::Inrogen => 20,
            QOI::Inro1 => 21,
            QOI::Inro2 => 22,
            QOI::Inro3 => 23,
            QOI::Inro4 => 24,
            QOI::Inro5 => 25,
            QOI::Inro6 => 26,
            QOI::Inro7 => 27,
            QOI::Inro8 => 28,
            QOI::Inro9 => 29,
            QOI::Inro10 => 30,
            QOI::Inro11 => 31,
            QOI::Inro12 => 32,
            QOI::Inro13 => 33,
            QOI::Inro14 => 34,
            QOI::Inro15 => 35,
            QOI::Inro16 => 36,
            QOI::Other(v) => v,
        }
    }
}

impl vstd::std_specs::convert::FromSpecImpl<QOI> for u8 {
    open spec fn obeys_from_spec() -> bool {
        true
    }

    open spec fn from_spec(data: QOI) -> Self {
        data.spec_to_u8()
    }
}

/// Interrogation command
#[derive(Debug, Copy, Clone, Eq, PartialEq, Default, Structural)]
pub struct C_IC_NA_1 {
    /// Qualifier of interrogation
    pub qoi: QOI,
}

impl C_IC_NA_1 {
    /// What the first byte of a value buffer spells.
    pub open spec fn spec_from_buffer(buf: DataBuffer) -> C_IC_NA_1 {
        C_IC_NA_1 {
            qoi: QOI::spec_from_u8(buf[0]),
        }
    }

    /// The value buffer that holds this payload, zero past its bytes.
    pub open spec fn spec_to_buffer(self) -> DataBuffer {
        [self.qoi.spec_to_u8(), 0, 0, 0, 0, 0, 0, 0, 0, 0, 0, 0]
    }

    /// Whether the payload is one that reading can give: every part of it is in range.
    pub open spec fn spec_in_range(self) -> bool {
        self.qoi.spec_canonical()
    }

    /// A payload in range is read back from its value buffer.
    pub proof fn lemma_round_trip(self)
        requires
            self.spec_in_range(),
        ensures
            C_IC_NA_1::spec_from_buffer(self.spec_to_buffer()) == self,
    {
        self.qoi.lemma_round_trip();
    }
}

impl From<DataBuffer> for C_IC_NA_1 {
    fn from(buf: DataBuffer) -> (r: Self) {
        C_IC_NA_1 {
            qoi: QOI::from(buf[0]),
        }
    }
}

impl vstd::std_specs::convert::FromSpecImpl<DataBuffer> for C_IC_NA_1 {
    open spec fn obeys_from_spec() -> bool {
        true
    }

    open spec fn from_spec(buf: DataBuffer) -> Self {
        C_IC_NA_1::spec_from_buffer(buf)
    }
}

impl From<C_IC_NA_1> for DataBuffer {
    fn from(data: C_IC_NA_1) -> (r: DataBuffer) {
        [u8::from(data.qoi), 0, 0, 0, 0, 0, 0, 0, 0, 0, 0, 0]
    }
}

impl vstd::std_specs::convert::FromSpecImpl<C_IC_NA_1> for DataBuffer {
    open spec fn obeys_from_spec() -> bool {
        true
    }

    open spec fn from_spec(data: C_IC_NA_1) -> Self {
        data.spec_to_buffer()
    }
}

/// Freeze/reset qualifier of counter interrogation commands
#[derive(Debug, Copy, Clone, Eq, PartialEq, Default, Structural)]
pub enum FRZ {
    /// Read
    #[default]
    Read,
    /// Freeze
    Freeze,
    /// Freeze and reset
    FreezeAndReset,
    /// Reset
    Reset,
}

impl FRZ {
    /// The value that each number names.
    pub open spec fn spec_from_u8(value: u8) -> FRZ {
        match value {
            0 => FRZ::Read,
            1 => FRZ::Freeze,
            2 => FRZ::FreezeAndReset,
            _ => FRZ::Reset,
        }
    }

    /// The number of each value.
    pub open spec fn spec_to_u8(self) -> u8 {
        match self {
            FRZ::Read => 0,
            FRZ::Freeze => 1,
            FRZ::FreezeAndReset => 2,
            FRZ::Reset => 3,
        }
    }

    /// Every value is read back from its number.
    pub proof fn lemma_round_trip(self)
        ensures
            FRZ::spec_from_u8(self.spec_to_u8()) == self,
    {
    }
}

impl From<u8> for FRZ {
    fn from(value: u8) -> (r: Self) {
        match value {
            0 => FRZ::Read,
            1 => FRZ::Freeze,
            2 => FRZ::FreezeAndReset,
            _ => FRZ::Reset,
        }
    }
}

impl vstd::std_specs::convert::FromSpecImpl<u8> for FRZ {
    open spec fn obeys_from_spec() -> bool {
        true
    }

    open spec fn from_spec(value: u8) -> Self {
        FRZ::spec_from_u8(value)
    }
}

impl From<FRZ> for u8 {
    fn from(data: FRZ) -> (r: u8) {
        match data {
            FRZ::Read => 0,
            FRZ::Freeze => 1,
            FRZ::FreezeAndReset => 2,
            FRZ::Reset => 3,
        }
    }
}

impl vstd::std_specs::convert::FromSpecImpl<FRZ> for u8 {
    open spec fn obeys_from_spec() -> bool {
        true
    }

    open spec fn from_spec(data: FRZ) -> Self {
        data.spec_to_u8()
    }
}

/// Request qualifier of counter interrogation commands
#[derive(Debug, Copy, Clone, Eq, PartialEq, Default, Structural)]
pub enum RQT {
    /// No counter read
    #[default]
    NoRequest,
    /// Group 1 counter interrogation
    ReqCo1,
    /// Group 2 counter interrogation
    ReqCo2,
    /// Group 3 counter interrogation
    ReqCo3,
    /// Group 4 counter interrogation
    ReqCo4,
    /// General counter interrogation
    ReqCoGen,
    /// Other (custom)
    Other(u8),
}

impl RQT {
    /// The value that each number names.
    pub open spec fn spec_from_u8(value: u8) -> RQT {
        match value {
            0 => RQT::NoRequest,
            1 => RQT::ReqCo1,
            2 => RQT::ReqCo2,
            3 => RQT::ReqCo3,
            4 => RQT::ReqCo4,
            5 => RQT::ReqCoGen,
            v => RQT::Other(v),
        }
    }

    /// The number of each value.
    pub open spec fn spec_to_u8(self) -> u8 {
        match self {
            RQT::NoRequest => 0,
            RQT::ReqCo1 => 1,
            RQT::ReqCo2 => 2,
            RQT::ReqCo3 => 3,
            RQT::ReqCo4 => 4,
            RQT::ReqCoGen => 5,
            RQT::Other(v) => v,
        }
    }

    /// Whether the value is the one that its number names: `Other` holds no number
    /// that has a name of its own.
    pub open spec fn spec_canonical(self) -> bool {
        match self {
            RQT::Other(v) => v > 5,
            _ => true,
        }
    }

    /// A canonical value is read back from its number.
    pub proof fn lemma_round_trip(self)
        requires
            self.spec_canonical(),
        ensures
            RQT::spec_from_u8(self.spec_to_u8()) == self,
    {
    }
}

impl From<u8> for RQT {
    fn from(value: u8) -> (r: Self) {
        match value {
            0 => RQT::NoRequest,
            1 => RQT::ReqCo1,
            2 => RQT::ReqCo2,
            3 => RQT::ReqCo3,
            4 => RQT::ReqCo4,
            5 => RQT::ReqCoGen,
            v => RQT::Other(v),
        }
    }
}

impl vstd::std_specs::convert::FromSpecImpl<u8> for RQT {
    open spec fn obeys_from_spec() -> bool {
        true
    }

    open spec fn from_spec(value: u8) -> Self {
        RQT::spec_from_u8(value)
    }
}

impl From<RQT> for u8 {
    fn from(data: RQT) -> (r: u8) {
        match data {
            RQT::NoRequest => 0,
            RQT::ReqCo1 => 1,
            RQT::ReqCo2 => 2,
            RQT::ReqCo3 => 3,
            RQT::ReqCo4 => 4,
            RQT::ReqCoGen => 5,
            RQT::Other(v) => v,
        }
    }
}

impl vstd::std_specs::convert::FromSpecImpl<RQT> for u8 {
    open spec fn obeys_from_spec() -> bool {
        true
    }

    open spec fn from_spec(data: RQT) -> Self {
        data.spec_to_u8()
    }
}

/// Counter interrogation command
#[derive(Debug, Copy, Clone, Eq, PartialEq, Default, Structural)]
pub struct C_CI_NA_1 {
    /// Freeze/reset qualifier
    pub frz: FRZ,
    /// Request qualifier
    pub rqt: RQT,
}

impl C_CI_NA_1 {
    /// Bits 6 and 7 of the first byte: the freeze qualifier. Bits 0 to 5: the request.
    pub open spec fn spec_from_buffer(buf: DataBuffer) -> C_CI_NA_1 {
        C_CI_NA_1 {
            frz: FRZ::spec_from_u8(buf[0] >> 6),
            rqt: RQT::spec_from_u8(buf[0] & 0b0011_1111),
        }
    }

    /// The value buffer that holds this payload, zero past its byte.
    pub open spec fn spec_to_buffer(self) -> DataBuffer {
        [
            (self.frz.spec_to_u8() << 6) | (self.rqt.spec_to_u8() & 0b0011_1111),
            0,
            0,
            0,
            0,
            0,
            0,
            0,
            0,
            0,
            0,
            0,
        ]
    }

    proof fn lemma_bits(frz: u8, rqt: u8)
        by (bit_vector)
        requires
            frz <= 3,
            rqt < 64,
        ensures
            (((frz << 6) | (rqt & 0b0011_1111)) >> 6) == frz,
            (((frz << 6) | (rqt & 0b0011_1111)) & 0b0011_1111) == rqt,
    {
    }

    /// Whether the payload is one that reading can give: the request is canonical and fits in
    /// six bits.
    pub open spec fn spec_in_range(self) -> bool {
        self.rqt.spec_canonical() && self.rqt.spec_to_u8() < 64
    }

    /// A payload in range is read back from its value buffer.
    pub proof fn lemma_round_trip(self)
        requires
            self.spec_in_range(),
        ensures
            C_CI_NA_1::spec_from_buffer(self.spec_to_buffer()) == self,
    {
        self.frz.lemma_round_trip();
        self.rqt.lemma_round_trip();
        C_CI_NA_1::lemma_bits(self.frz.spec_to_u8(), self.rqt.spec_to_u8());
    }
}

impl From<DataBuffer> for C_CI_NA_1 {
    fn from(buf: DataBuffer) -> (r: Self) {
        C_CI_NA_1 { frz: FRZ::from(buf[0] >> 6), rqt: RQT::from(buf[0] & 0b0011_1111) }
    }
}

impl vstd::std_specs::convert::FromSpecImpl<DataBuffer> for C_CI_NA_1 {
    open spec fn obeys_from_spec() -> bool {
        true
    }

    open spec fn from_spec(buf: DataBuffer) -> Self {
        C_CI_NA_1::spec_from_buffer(buf)
    }
}

impl From<C_CI_NA_1> for DataBuffer {
    fn from(data: C_CI_NA_1) -> (r: DataBuffer) {
        [
            (u8::from(data.frz) << 6) | (u8::from(data.rqt) & 0b0011_1111),
            0,
            0,
            0,
            0,
            0,
            0,
            0,
            0,
            0,
            0,
            0,
        ]
    }
}

impl vstd::std_specs::convert::FromSpecImpl<C_CI_NA_1> for DataBuffer {
    open spec fn obeys_from_spec() -> bool {
        true
    }

    open spec fn from_spec(data: C_CI_NA_1) -> Self {
        data.spec_to_buffer()
    }
}

/// Read command
#[derive(Debug, Copy, Clone, Eq, PartialEq, Default, Structural)]
pub struct C_RD_NA_1 {}

impl C_RD_NA_1 {
    /// The read command has no payload.
    pub open spec fn spec_from_buffer(buf: DataBuffer) -> C_RD_NA_1 {
        C_RD_NA_1 {  }
    }

    /// The value buffer of a read command: all zero.
    pub open spec fn spec_to_buffer(self) -> DataBuffer {
        [0, 0, 0, 0, 0, 0, 0, 0, 0, 0, 0, 0]
    }
}

impl From<DataBuffer> for C_RD_NA_1 {
    fn from(_buf: DataBuffer) -> (r: Self) {
        C_RD_NA_1 {  }
    }
}

impl vstd::std_specs::convert::FromSpecImpl<DataBuffer> for C_RD_NA_1 {
    open spec fn obeys_from_spec() -> bool {
        true
    }

    open spec fn from_spec(_buf: DataBuffer) -> Self {
        C_RD_NA_1::spec_from_buffer(_buf)
    }
}

impl From<C_RD_NA_1> for DataBuffer {
    fn from(_data: C_RD_NA_1) -> (r: DataBuffer) {
        [0, 0, 0, 0, 0, 0, 0, 0, 0, 0, 0, 0]
    }
}

impl vstd::std_specs::convert::FromSpecImpl<C_RD_NA_1> for DataBuffer {
    open spec fn obeys_from_spec() -> bool {
        true
    }

    open spec fn from_spec(_data: C_RD_NA_1) -> Self {
        _data.spec_to_buffer()
    }
}

/// Clock synchronization command
#[derive(Debug, Copy, Clone, Eq, PartialEq, Default, Structural)]
pub struct C_CS_NA_1 {
    /// Time
    pub time: CP56Time2a,
}

impl C_CS_NA_1 {
    /// What the first 7 bytes of a value buffer spell.
    pub open spec fn spec_from_buffer(buf: DataBuffer) -> C_CS_NA_1 {
        C_CS_NA_1 {
            time: CP56Time2a::spec_from_bytes(
                [buf[0], buf[1], buf[2], buf[3], buf[4], buf[5], buf[6]],
            ),
        }
    }

    /// The value buffer that holds this payload, zero past its bytes.
    pub open spec fn spec_to_buffer(self) -> DataBuffer {
        let time = self.time.spec_to_bytes();
        [time[0], time[1], time[2], time[3], time[4], time[5], time[6], 0, 0, 0, 0, 0]
    }

    /// Whether the payload is one that reading can give: every part of it is in range.
    pub open spec fn spec_in_range(self) -> bool {
        spec_cp56_in_range(self.time)
    }

    /// A payload in range is read back from its value buffer.
    pub proof fn lemma_round_trip(self)
        requires
            self.spec_in_range(),
        ensures
            C_CS_NA_1::spec_from_buffer(self.spec_to_buffer()) == self,
    {
        lemma_cp56_round_trip(self.time);
    }
}

impl From<DataBuffer> for C_CS_NA_1 {
    fn from(buf: DataBuffer) -> (r: Self) {
        C_CS_NA_1 {
            time: CP56Time2a::from([buf[0], buf[1], buf[2], buf[3], buf[4], buf[5], buf[6]]),
        }
    }
}

impl vstd::std_specs::convert::FromSpecImpl<DataBuffer> for C_CS_NA_1 {
    open spec fn obeys_from_spec() -> bool {
        true
    }

    open spec fn from_spec(buf: DataBuffer) -> Self {
        C_CS_NA_1::spec_from_buffer(buf)
    }
}

impl From<C_CS_NA_1> for DataBuffer {
    fn from(data: C_CS_NA_1) -> (r: DataBuffer) {
        let time: [u8; 7] = <[u8; 7]>::from(data.time);
        [time[0], time[1], time[2], time[3], time[4], time[5], time[6], 0, 0, 0, 0, 0]
    }
}

impl vstd::std_specs::convert::FromSpecImpl<C_CS_NA_1> for DataBuffer {
    open spec fn obeys_from_spec() -> bool {
        true
    }

    open spec fn from_spec(data: C_CS_NA_1) -> Self {
        data.spec_to_buffer()
    }
}

/// Test command (fixed pattern)
#[derive(Debug, Copy, Clone, Eq, PartialEq, Structural)]
pub struct C_TS_NA_1 {
    fbp0: u8,
    fbp1: u8,
}

impl C_TS_NA_1 {
    /// The two bytes of the fixed bit pattern.
    pub closed spec fn spec_pattern(self) -> (u8, u8) {
        (self.fbp0, self.fbp1)
    }

    /// The first two bytes of a value buffer, taken as they are.
    pub closed spec fn spec_from_buffer(buf: DataBuffer) -> C_TS_NA_1 {
        C_TS_NA_1 { fbp0: buf[0], fbp1: buf[1] }
    }

    /// The value buffer that holds the two bytes of the pattern, zero past them.
    pub open spec fn spec_to_buffer(self) -> DataBuffer {
        [self.spec_pattern().0, self.spec_pattern().1, 0, 0, 0, 0, 0, 0, 0, 0, 0, 0]
    }

    /// A test command read from a buffer holds the buffer's first two bytes.
    pub proof fn lemma_from_buffer(buf: DataBuffer)
        ensures
            C_TS_NA_1::spec_from_buffer(buf).spec_pattern() == (buf[0], buf[1]),
    {
    }

    /// Every test command is read back from its value buffer.
    pub proof fn lemma_round_trip(self)
        ensures
            C_TS_NA_1::spec_from_buffer(self.spec_to_buffer()) == self,
    {
    }
}

impl Default for C_TS_NA_1 {
    fn default() -> (r: Self)
        ensures
            r.spec_pattern() == (0xaau8, 0x55u8),
    {
        Self { fbp0: 0xaa, fbp1: 0x55 }
    }
}

impl From<DataBuffer> for C_TS_NA_1 {
    fn from(buf: DataBuffer) -> (r: Self) {
        C_TS_NA_1 { fbp0: buf[0], fbp1: buf[1] }
    }
}

impl vstd::std_specs::convert::FromSpecImpl<DataBuffer> for C_TS_NA_1 {
    open spec fn obeys_from_spec() -> bool {
        true
    }

    open spec fn from_spec(buf: DataBuffer) -> Self {
        C_TS_NA_1::spec_from_buffer(buf)
    }
}

impl From<C_TS_NA_1> for DataBuffer {
    fn from(data: C_TS_NA_1) -> (r: DataBuffer) {
        [data.fbp0, data.fbp1, 0, 0, 0, 0, 0, 0, 0, 0, 0, 0]
    }
}

impl vstd::std_specs::convert::FromSpecImpl<C_TS_NA_1> for DataBuffer {
    open spec fn obeys_from_spec() -> bool {
        true
    }

    open spec fn from_spec(data: C_TS_NA_1) -> Self {
        data.spec_to_buffer()
    }
}

/// Qualifier of reset process
#[derive(Debug, Copy, Clone, Eq, PartialEq, Default, Structural)]
pub enum QRP {
    /// Unused
    #[default]
    Unused,
    /// General process reset
    General,
    /// Reset pending events with time tag
    TtEvents,
    /// Other (custom)
    Other(u8),
}

impl QRP {
    /// The value that each number names.
    pub open spec fn spec_from_u8(value: u8) -> QRP {
        match value {
            0 => QRP::Unused,
            1 => QRP::General,
            2 => QRP::TtEvents,
            v => QRP::Other(v),
        }
    }

    /// The number of each value.
    pub open spec fn spec_to_u8(self) -> u8 {
        match self {
            QRP::Unused => 0,
            QRP::General => 1,
            QRP::TtEvents => 2,
            QRP::Other(v) => v,
        }
    }

    /// Whether the value is the one that its number names: `Other` holds no number
    /// that has a name of its own.
    pub open spec fn spec_canonical(self) -> bool {
        match self {
            QRP::Other(v) => v > 2,
            _ => true,
        }
    }

    /// A canonical value is read back from its number.
    pub proof fn lemma_round_trip(self)
        requires
            self.spec_canonical(),
        ensures
            QRP::spec_from_u8(self.spec_to_u8()) == self,
    {
    }
}

impl From<u8> for QRP {
    fn from(value: u8) -> (r: Self) {
        match value {
            0 => QRP::Unused,
            1 => QRP::General,
            2 => QRP::TtEvents,
            v => QRP::Other(v),
        }
    }
}

impl vstd::std_specs::convert::FromSpecImpl<u8> for QRP {
    open spec fn obeys_from_spec() -> bool {
        true
    }

    open spec fn from_spec(value: u8) -> Self {
        QRP::spec_from_u8(value)
    }
}

impl From<QRP> for u8 {
    fn from(data: QRP) -> (r: u8) {
        match data {
            QRP::Unused => 0,
            QRP::General => 1,
            QRP::TtEvents => 2,
            QRP::Other(v) => v,
        }
    }
}

impl vstd::std_specs::convert::FromSpecImpl<QRP> for u8 {
    open spec fn obeys_from_spec() -> bool {
        true
    }

    open spec fn from_spec(data: QRP) -> Self {
        data.spec_to_u8()
    }
}

/// Reset process command
#[derive(Debug, Copy, Clone, Eq, PartialEq, Default, Structural)]
pub struct C_RP_NA_1 {
    /// Qualifier of reset process
    pub qrp: QRP,
}

impl C_RP_NA_1 {
    /// What the first byte of a value buffer spells.
    pub open spec fn spec_from_buffer(buf: DataBuffer) -> C_RP_NA_1 {
        C_RP_NA_1 {
            qrp: QRP::spec_from_u8(buf[0]),
        }
    }

    /// The value buffer that holds this payload, zero past its bytes.
    pub open spec fn spec_to_buffer(self) -> DataBuffer {
        [self.qrp.spec_to_u8(), 0, 0, 0, 0, 0, 0, 0, 0, 0, 0, 0]
    }

    /// Whether the payload is one that reading can give: every part of it is in range.
    pub open spec fn spec_in_range(self) -> bool {
        self.qrp.spec_canonical()
    }

    /// A payload in range is read back from its value buffer.
    pub proof fn lemma_round_trip(self)
        requires
            self.spec_in_range(),
        ensures
            C_RP_NA_1::spec_from_buffer(self.spec_to_buffer()) == self,
    {
        self.qrp.lemma_round_trip();
    }
}

impl From<DataBuffer> for C_RP_NA_1 {
    fn from(buf: DataBuffer) -> (r: Self) {
        C_RP_NA_1 {
            qrp: QRP::from(buf[0]),
        }
    }
}

impl vstd::std_specs::convert::FromSpecImpl<DataBuffer> for C_RP_NA_1 {
    open spec fn obeys_from_spec() -> bool {
        true
    }

    open spec fn from_spec(buf: DataBuffer) -> Self {
        C_RP_NA_1::spec_from_buffer(buf)
    }
}

impl From<C_RP_NA_1> for DataBuffer {
    fn from(data: C_RP_NA_1) -> (r: DataBuffer) {
        [u8::from(data.qrp), 0, 0, 0, 0, 0, 0, 0, 0, 0, 0, 0]
    }
}

impl vstd::std_specs::convert::FromSpecImpl<C_RP_NA_1> for DataBuffer {
    open spec fn obeys_from_spec() -> bool {
        true
    }

    open spec fn from_spec(data: C_RP_NA_1) -> Self {
        data.spec_to_buffer()
    }
}

/// Delay acquisition command
#[derive(Debug, Copy, Clone, Eq, PartialEq, Default, Structural)]
pub struct C_CD_NA_1 {
    /// Time
    pub time: CP16Time2a,
}

impl C_CD_NA_1 {
    /// What the first 2 bytes of a value buffer spell.
    pub open spec fn spec_from_buffer(buf: DataBuffer) -> C_CD_NA_1 {
        C_CD_NA_1 {
            time: CP16Time2a::spec_from_bytes([buf[0], buf[1]]),
        }
    }

    /// The value buffer that holds this payload, zero past its bytes.
    pub open spec fn spec_to_buffer(self) -> DataBuffer {
        let time = self.time.spec_to_bytes();
        [time[0], time[1], 0, 0, 0, 0, 0, 0, 0, 0, 0, 0]
    }

    /// Every payload is read back from its value buffer.
    pub proof fn lemma_round_trip(self)
        ensures
            C_CD_NA_1::spec_from_buffer(self.spec_to_buffer()) == self,
    {
        lemma_cp16_round_trip(self.time);
    }
}

impl From<DataBuffer> for C_CD_NA_1 {
    fn from(buf: DataBuffer) -> (r: Self) {
        C_CD_NA_1 {
            time: CP16Time2a::from([buf[0], buf[1]]),
        }
    }
}

impl vstd::std_specs::convert::FromSpecImpl<DataBuffer> for C_CD_NA_1 {
    open spec fn obeys_from_spec() -> bool {
        true
    }

    open spec fn from_spec(buf: DataBuffer) -> Self {
        C_CD_NA_1::spec_from_buffer(buf)
    }
}

impl From<C_CD_NA_1> for DataBuffer {
    fn from(data: C_CD_NA_1) -> (r: DataBuffer) {
        let time: [u8; 2] = <[u8; 2]>::from(data.time);
        [time[0], time[1], 0, 0, 0, 0, 0, 0, 0, 0, 0, 0]
    }
}

impl vstd::std_specs::convert::FromSpecImpl<C_CD_NA_1> for DataBuffer {
    open spec fn obeys_from_spec() -> bool {
        true
    }

    open spec fn from_spec(data: C_CD_NA_1) -> Self {
        data.spec_to_buffer()
    }
}

/// Test command with time tag
#[derive(Debug, Copy, Clone, Eq, PartialEq, Default, Structural)]
pub struct C_TS_TA_1 {
    /// Test counter
    pub tsc: u16,
    /// Time tag
    pub time: CP56Time2a,
}

impl C_TS_TA_1 {
    /// The test counter from the first two bytes, big-endian, then the time tag.
    pub open spec fn spec_from_buffer(buf: DataBuffer) -> C_TS_TA_1 {
        C_TS_TA_1 {
            tsc: spec_u16_le(buf[1], buf[0]),
            time: CP56Time2a::spec_from_bytes(
                [buf[2], buf[3], buf[4], buf[5], buf[6], buf[7], buf[8]],
            ),
        }
    }

    /// The value buffer that holds this payload, zero past its bytes: the test counter
    /// big-endian, then the time tag.
    pub open spec fn spec_to_buffer(self) -> DataBuffer {
        let time = self.time.spec_to_bytes();
        [
            spec_u16_high(self.tsc),
            spec_u16_low(self.tsc),
            time[0],
            time[1],
            time[2],
            time[3],
            time[4],
            time[5],
            time[6],
            0,
            0,
            0,
        ]
    }

    /// Whether the payload is one that reading can give: the time tag is in range.
    pub open spec fn spec_in_range(self) -> bool {
        spec_cp56_in_range(self.time)
    }

    /// A payload in range is read back from its value buffer.
    pub proof fn lemma_round_trip(self)
        requires
            self.spec_in_range(),
        ensures
            C_TS_TA_1::spec_from_buffer(self.spec_to_buffer()) == self,
    {
        lemma_u16_le_round_trip(self.tsc, 0, 0);
        lemma_cp56_round_trip(self.time);
    }
}

impl From<DataBuffer> for C_TS_TA_1 {
    fn from(buf: DataBuffer) -> (r: Self) {
        C_TS_TA_1 {
            tsc: (buf[1] as u16) | ((buf[0] as u16) << 8),
            time: CP56Time2a::from([buf[2], buf[3], buf[4], buf[5], buf[6], buf[7], buf[8]]),
        }
    }
}

impl vstd::std_specs::convert::FromSpecImpl<DataBuffer> for C_TS_TA_1 {
    open spec fn obeys_from_spec() -> bool {
        true
    }

    open spec fn from_spec(buf: DataBuffer) -> Self {
        C_TS_TA_1::spec_from_buffer(buf)
    }
}

impl From<C_TS_TA_1> for DataBuffer {
    fn from(data: C_TS_TA_1) -> (r: DataBuffer) {
        let time: [u8; 7] = <[u8; 7]>::from(data.time);
        [
            (data.tsc >> 8) as u8,
            (data.tsc & 0xff) as u8,
            time[0],
            time[1],
            time[2],
            time[3],
            time[4],
            time[5],
            time[6],
            0,
            0,
            0,
        ]
    }
}

impl vstd::std_specs::convert::FromSpecImpl<C_TS_TA_1> for DataBuffer {
    open spec fn obeys_from_spec() -> bool {
        true
    }

    open spec fn from_spec(data: C_TS_TA_1) -> Self {
        data.spec_to_buffer()
    }
}

/// Kind of parameter of measured value
#[derive(Debug, Copy, Clone, Eq, PartialEq, Default, Structural)]
pub enum KPA {
    /// Unused
    #[default]
    Unused,
    /// Threshold
    Thresh,
    /// Filter
    Filter,
    /// Low limit
    LoLimit,
    /// High limit
    HiLimit,
    /// Other (custom)
    Other(u8),
}

impl KPA {
    /// The value that each number names.
    pub open spec fn spec_from_u8(value: u8) -> KPA {
        match value {
            0 => KPA::Unused,
            1 => KPA::Thresh,
            2 => KPA::Filter,
            3 => KPA::LoLimit,
            4 => KPA::HiLimit,
            v => KPA::Other(v),
        }
    }

    /// The number of each value.
    pub open spec fn spec_to_u8(self) -> u8 {
        match self {
            KPA::Unused => 0,
            KPA::Thresh => 1,
            KPA::Filter => 2,
            KPA::LoLimit => 3,
            KPA::HiLimit => 4,
            KPA::Other(v) => v,
        }
    }

    /// Whether the value is the one that its number names: `Other` holds no number
    /// that has a name of its own.
    pub open spec fn spec_canonical(self) -> bool {
        match self {
            KPA::Other(v) => v > 4,
            _ => true,
        }
    }

    /// A canonical value is read back from its number.
    pub proof fn lemma_round_trip(self)
        requires
            self.spec_canonical(),
        ensures
            KPA::spec_from_u8(self.spec_to_u8()) == self,
    {
    }
}

impl From<u8> for KPA {
    fn from(value: u8) -> (r: Self) {
        match value {
            0 => KPA::Unused,
            1 => KPA::Thresh,
            2 => KPA::Filter,
            3 => KPA::LoLimit,
            4 => KPA::HiLimit,
            v => KPA::Other(v),
        }
    }
}

impl vstd::std_specs::convert::FromSpecImpl<u8> for KPA {
    open spec fn obeys_from_spec() -> bool {
        true
    }

    open spec fn from_spec(value: u8) -> Self {
        KPA::spec_from_u8(value)
    }
}

impl From<KPA> for u8 {
    fn from(data: KPA) -> (r: u8) {
        match data {
            KPA::Unused => 0,
            KPA::Thresh => 1,
            KPA::Filter => 2,
            KPA::LoLimit => 3,
            KPA::HiLimit => 4,
            KPA::Other(v) => v,
        }
    }
}

impl vstd::std_specs::convert::FromSpecImpl<KPA> for u8 {
    open spec fn obeys_from_spec() -> bool {
        true
    }

    open spec fn from_spec(data: KPA) -> Self {
        data.spec_to_u8()
    }
}

/// Qualifier of parameter of measured value
#[derive(Debug, Copy, Clone, Eq, PartialEq, Default, Structural)]
pub struct QPM {
    /// Kind of parameter of measured value
    pub kpa: KPA,
    /// POP
    pub pop: bool,
    /// Local parameter change
    pub lpc: LPC,
}

impl QPM {
    /// The kind of parameter is read from bits 5 to 7, the operation flag from bit 6 and the change
    /// flag from bit 0; writing puts the kind in bits 5 to 7, the operation flag in bit 6 and the
    /// change flag in bit 7.
    pub open spec fn spec_from_u8(v: u8) -> QPM {
        QPM {
            kpa: KPA::spec_from_u8(v >> 5),
            pop: v & 0b0100_0000 != 0,
            lpc: LPC::spec_from_u8(v & 0b0000_0001),
        }
    }

    /// The byte that holds this value.
    pub open spec fn spec_to_u8(self) -> u8 {
        (self.kpa.spec_to_u8() << 5) | spec_flag(self.pop, 0b0100_0000)
            | (self.lpc.spec_to_u8() << 7)
    }
}

impl From<u8> for QPM {
    fn from(v: u8) -> (r: Self) {
        QPM {
            kpa: KPA::from(v >> 5),
            pop: v & 0b0100_0000 != 0,
            lpc: LPC::from(v & 0b0000_0001),
        }
    }
}

impl vstd::std_specs::convert::FromSpecImpl<u8> for QPM {
    open spec fn obeys_from_spec() -> bool {
        true
    }

    open spec fn from_spec(v: u8) -> Self {
        QPM::spec_from_u8(v)
    }
}

impl From<QPM> for u8 {
    fn from(data: QPM) -> (r: u8) {
        (u8::from(data.kpa) << 5) | flag(data.pop, 0b0100_0000) | (data.lpc.code() << 7)
    }
}

impl vstd::std_specs::convert::FromSpecImpl<QPM> for u8 {
    open spec fn obeys_from_spec() -> bool {
        true
    }

    open spec fn from_spec(data: QPM) -> Self {
        data.spec_to_u8()
    }
}

/// Parameter of measured value, normalized value
#[derive(Debug, Copy, Clone, Eq, PartialEq, Default, Structural)]
pub struct P_ME_NA_1 {
    /// Normalized value
    pub nva: NVA,
    /// Qualifier of parameter of measured value
    pub qpm: QPM,
}

impl P_ME_NA_1 {
    /// What the first 3 bytes of a value buffer spell.
    pub open spec fn spec_from_buffer(buf: DataBuffer) -> P_ME_NA_1 {
        P_ME_NA_1 {
            nva: NVA::spec_from_bytes([buf[0], buf[1]]),
            qpm: QPM::spec_from_u8(buf[2]),
        }
    }

    /// The value buffer that holds this payload, zero past its bytes.
    pub open spec fn spec_to_buffer(self) -> DataBuffer {
        let nva = self.nva.spec_to_bytes();
        [nva[0], nva[1], self.qpm.spec_to_u8(), 0, 0, 0, 0, 0, 0, 0, 0, 0]
    }
}

impl From<DataBuffer> for P_ME_NA_1 {
    fn from(buf: DataBuffer) -> (r: Self) {
        P_ME_NA_1 {
            nva: NVA::from([buf[0], buf[1]]),
            qpm: QPM::from(buf[2]),
        }
    }
}

impl vstd::std_specs::convert::FromSpecImpl<DataBuffer> for P_ME_NA_1 {
    open spec fn obeys_from_spec() -> bool {
        true
    }

    open spec fn from_spec(buf: DataBuffer) -> Self {
        P_ME_NA_1::spec_from_buffer(buf)
    }
}

impl From<P_ME_NA_1> for DataBuffer {
    fn from(data: P_ME_NA_1) -> (r: DataBuffer) {
        let nva: [u8; 2] = <[u8; 2]>::from(data.nva);
        [nva[0], nva[1], u8::from(data.qpm), 0, 0, 0, 0, 0, 0, 0, 0, 0]
    }
}

impl vstd::std_specs::convert::FromSpecImpl<P_ME_NA_1> for DataBuffer {
    open spec fn obeys_from_spec() -> bool {
        true
    }

    open spec fn from_spec(data: P_ME_NA_1) -> Self {
        data.spec_to_buffer()
    }
}

/// Parameter of scaled value, measured value
#[derive(Debug, Copy, Clone, Eq, PartialEq, Default, Structural)]
pub struct P_ME_NB_1 {
    /// Scaled value
    pub sva: SVA,
    /// Qualifier of parameter of measured value
    pub qpm: QPM,
}

impl P_ME_NB_1 {
    /// What the first 3 bytes of a value buffer spell.
    pub open spec fn spec_from_buffer(buf: DataBuffer) -> P_ME_NB_1 {
        P_ME_NB_1 {
            sva: SVA::spec_from_bytes([buf[0], buf[1]]),
            qpm: QPM::spec_from_u8(buf[2]),
        }
    }

    /// The value buffer that holds this payload, zero past its bytes.
    pub open spec fn spec_to_buffer(self) -> DataBuffer {
        let sva = self.sva.spec_to_bytes();
        [sva[0], sva[1], self.qpm.spec_to_u8(), 0, 0, 0, 0, 0, 0, 0, 0, 0]
    }
}

impl From<DataBuffer> for P_ME_NB_1 {
    fn from(buf: DataBuffer) -> (r: Self) {
        P_ME_NB_1 {
            sva: SVA::from([buf[0], buf[1]]),
            qpm: QPM::from(buf[2]),
        }
    }
}

impl vstd::std_specs::convert::FromSpecImpl<DataBuffer> for P_ME_NB_1 {
    open spec fn obeys_from_spec() -> bool {
        true
    }

    open spec fn from_spec(buf: DataBuffer) -> Self {
        P_ME_NB_1::spec_from_buffer(buf)
    }
}

impl From<P_ME_NB_1> for DataBuffer {
    fn from(data: P_ME_NB_1) -> (r: DataBuffer) {
        let sva: [u8; 2] = <[u8; 2]>::from(data.sva);
        [sva[0], sva[1], u8::from(data.qpm), 0, 0, 0, 0, 0, 0, 0, 0, 0]
    }
}

impl vstd::std_specs::convert::FromSpecImpl<P_ME_NB_1> for DataBuffer {
    open spec fn obeys_from_spec() -> bool {
        true
    }

    open spec fn from_spec(data: P_ME_NB_1) -> Self {
        data.spec_to_buffer()
    }
}

/// Parameter of short floating point value, measured value
#[derive(Debug, Copy, Clone, Eq, PartialEq, Default, Structural)]
pub struct P_ME_NC_1 {
    /// Short floating point value
    pub r32: R32,
    /// Qualifier of parameter of measured value
    pub qpm: QPM,
}

impl P_ME_NC_1 {
    /// What the first 5 bytes of a value buffer spell.
    pub open spec fn spec_from_buffer(buf: DataBuffer) -> P_ME_NC_1 {
        P_ME_NC_1 {
            r32: R32::spec_from_bytes([buf[0], buf[1], buf[2], buf[3]]),
            qpm: QPM::spec_from_u8(buf[4]),
        }
    }

    /// The value buffer that holds this payload, zero past its bytes.
    pub open spec fn spec_to_buffer(self) -> DataBuffer {
        let r32 = self.r32.spec_to_bytes();
        [r32[0], r32[1], r32[2], r32[3], self.qpm.spec_to_u8(), 0, 0, 0, 0, 0, 0, 0]
    }
}

impl From<DataBuffer> for P_ME_NC_1 {
    fn from(buf: DataBuffer) -> (r: Self) {
        P_ME_NC_1 {
            r32: R32::from([buf[0], buf[1], buf[2], buf[3]]),
            qpm: QPM::from(buf[4]),
        }
    }
}

impl vstd::std_specs::convert::FromSpecImpl<DataBuffer> for P_ME_NC_1 {
    open spec fn obeys_from_spec() -> bool {
        true
    }

    open spec fn from_spec(buf: DataBuffer) -> Self {
        P_ME_NC_1::spec_from_buffer(buf)
    }
}

impl From<P_ME_NC_1> for DataBuffer {
    fn from(data: P_ME_NC_1) -> (r: DataBuffer) {
        let r32: [u8; 4] = <[u8; 4]>::from(data.r32);
        [r32[0], r32[1], r32[2], r32[3], u8::from(data.qpm), 0, 0, 0, 0, 0, 0, 0]
    }
}

impl vstd::std_specs::convert::FromSpecImpl<P_ME_NC_1> for DataBuffer {
    open spec fn obeys_from_spec() -> bool {
        true
    }

    open spec fn from_spec(data: P_ME_NC_1) -> Self {
        data.spec_to_buffer()
    }
}

/// Qualifier of parameter activation
#[derive(Debug, Copy, Clone, Eq, PartialEq, Default, Structural)]
pub enum QPA {
    /// Unused
    #[default]
    Unused,
    /// General
    General,
    /// Object
    Object,
    /// Transmission
    Transmission,
    /// Other (custom)
    Other(u8),
}

impl QPA {
    /// The value that each number names.
    pub open spec fn spec_from_u8(value: u8) -> QPA {
        match value {
            0 => QPA::Unused,
            1 => QPA::General,
            2 => QPA::Object,
            3 => QPA::Transmission,
            v => QPA::Other(v),
        }
    }

    /// The number of each value.
    pub open spec fn spec_to_u8(self) -> u8 {
        match self {
            QPA::Unused => 0,
            QPA::General => 1,
            QPA::Object => 2,
            QPA::Transmission => 3,
            QPA::Other(v) => v,
        }
    }

    /// Whether the value is the one that its number names: `Other` holds no number
    /// that has a name of its own.
    pub open spec fn spec_canonical(self) -> bool {
        match self {
            QPA::Other(v) => v > 3,
            _ => true,
        }
    }

    /// A canonical value is read back from its number.
    pub proof fn lemma_round_trip(self)
        requires
            self.spec_canonical(),
        ensures
            QPA::spec_from_u8(self.spec_to_u8()) == self,
    {
    }
}

impl From<u8> for QPA {
    fn from(value: u8) -> (r: Self) {
        match value {
            0 => QPA::Unused,
            1 => QPA::General,
            2 => QPA::Object,
            3 => QPA::Transmission,
            v => QPA::Other(v),
        }
    }
}

impl vstd::std_specs::convert::FromSpecImpl<u8> for QPA {
    open spec fn obeys_from_spec() -> bool {
        true
    }

    open spec fn from_spec(value: u8) -> Self {
        QPA::spec_from_u8(value)
    }
}

impl From<QPA> for u8 {
    fn from(data: QPA) -> (r: u8) {
        match data {
            QPA::Unused => 0,
            QPA::General => 1,
            QPA::Object => 2,
            QPA::Transmission => 3,
            QPA::Other(v) => v,
        }
    }
}

impl vstd::std_specs::convert::FromSpecImpl<QPA> for u8 {
    open spec fn obeys_from_spec() -> bool {
        true
    }

    open spec fn from_spec(data: QPA) -> Self {
        data.spec_to_u8()
    }
}

/// Parameter activation
#[derive(Debug, Copy, Clone, Eq, PartialEq, Default, Structural)]
pub struct P_AC_NA_1 {
    /// Qualifier of parameter activation
    pub qpa: QPA,
}

impl P_AC_NA_1 {
    /// What the first byte of a value buffer spells.
    pub open spec fn spec_from_buffer(buf: DataBuffer) -> P_AC_NA_1 {
        P_AC_NA_1 {
            qpa: QPA::spec_from_u8(buf[0]),
        }
    }

    /// The value buffer that holds this payload, zero past its bytes.
    pub open spec fn spec_to_buffer(self) -> DataBuffer {
        [self.qpa.spec_to_u8(), 0, 0, 0, 0, 0, 0, 0, 0, 0, 0, 0]
    }

    /// Whether the payload is one that reading can give: every part of it is in range.
    pub open spec fn spec_in_range(self) -> bool {
        self.qpa.spec_canonical()
    }

    /// A payload in range is read back from its value buffer.
    pub proof fn lemma_round_trip(self)
        requires
            self.spec_in_range(),
        ensures
            P_AC_NA_1::spec_from_buffer(self.spec_to_buffer()) == self,
    {
        self.qpa.lemma_round_trip();
    }
}

impl From<DataBuffer> for P_AC_NA_1 {
    fn from(buf: DataBuffer) -> (r: Self) {
        P_AC_NA_1 {
            qpa: QPA::from(buf[0]),
        }
    }
}

impl vstd::std_specs::convert::FromSpecImpl<DataBuffer> for P_AC_NA_1 {
    open spec fn obeys_from_spec() -> bool {
        true
    }

    open spec fn from_spec(buf: DataBuffer) -> Self {
        P_AC_NA_1::spec_from_buffer(buf)
    }
}

impl From<P_AC_NA_1> for DataBuffer {
    fn from(data: P_AC_NA_1) -> (r: DataBuffer) {
        [u8::from(data.qpa), 0, 0, 0, 0, 0, 0, 0, 0, 0, 0, 0]
    }
}

impl vstd::std_specs::convert::FromSpecImpl<P_AC_NA_1> for DataBuffer {
    open spec fn obeys_from_spec() -> bool {
        true
    }

    open spec fn from_spec(data: P_AC_NA_1) -> Self {
        data.spec_to_buffer()
    }
}

/// IEC 60870-5 101/104 data types
#[allow(non_camel_case_types)]
#[derive(Debug, Copy, Clone, Eq, PartialEq, Structural)]
pub enum DataType {
    /// (000, 0x00) not allowed
    ASDU_TYPEUNDEF,
    /// (001, 0x01) Single-point information
    M_SP_NA_1,
    /// (002, 0x02) Single-point information with time tag
    M_SP_TA_1,
    /// (003, 0x03) Double-point information
    M_DP_NA_1,
    /// (004, 0x04) Double-point information with time tag
    M_DP_TA_1,
    /// (005, 0x05) Step position information
    M_ST_NA_1,
    /// (006, 0x06) Step position information with time tag
    M_ST_TA_1,
    /// (007, 0x07) Bitstring of 32 bit
    M_BO_NA_1,
    /// (008, 0x08) Bitstring of 32 bit with time tag
    M_BO_TA_1,
    /// (009, 0x09) Measured value, normalised value
    M_ME_NA_1,
    /// (010, 0x0A) Measured value, normalized value with time tag
    M_ME_TA_1,
    /// (011, 0x0B) Measured value, scaled value
    M_ME_NB_1,
    /// (012, 0x0C) Measured value, scaled value with time tag
    M_ME_TB_1,
    /// (013, 0x0D) Measured value, short floating point number
    M_ME_NC_1,
    /// (014, 0x0E) Measured value, short floating point number with time tag
    M_ME_TC_1,
    /// (015, 0x0F) Integrated totals
    M_IT_NA_1,
    /// (016, 0x10) Integrated totals with time tag
    M_IT_TA_1,
    /// (017, 0x11) Event of protection equipment with time tag
    M_EP_TA_1,
    /// (018, 0x12) Packed start events of protection equipment with time tag
    M_EP_TB_1,
    /// (019, 0x13) Packed output circuit information of protection equipment with time tag
    M_EP_TC_1,
    /// (020, 0x14) Packed single point information with status change detection
    M_PS_NA_1,
    /// (021, 0x15) Measured value, normalized value without quality descriptor
    M_ME_ND_1,
    /// (030, 0x1E) Single-point information with time tag CP56Time2a
    M_SP_TB_1,
    /// (031, 0x1F) Double-point information with time tag CP56Time2a
    M_DP_TB_1,
    /// (032, 0x20) Step position information with time tag CP56Time2a
    M_ST_TB_1,
    /// (033, 0x21) Bitstring of 32 bit with time tag CP56Time2a
    M_BO_TB_1,
    /// (034, 0x22) Measured value, normalised value with time tag CP56Time2a
    M_ME_TD_1,
    /// (035, 0x23) Measured value, scaled value with time tag CP56Time2a
    M_ME_TE_1,
    /// (036, 0x24) Measured value, short floating point number with time tag CP56Time2a
    M_ME_TF_1,
    /// (037, 0x25) Integrated totals with time tag CP56Time2a
    M_IT_TB_1,
    /// (038, 0x26) Event of protection equipment with time tag CP56Time2a
    M_EP_TD_1,
    /// (039, 0x27) Packed start events of protection equipment with time tag CP56Time2a
    M_EP_TE_1,
    /// (040, 0x28) Packed output circuit information of protection equipment with time tag
    /// CP56Time2a
    M_EP_TF_1,
    /// (045, 0x2D) Single command
    C_SC_NA_1,
    /// (046, 0x2E) Double command
    C_DC_NA_1,
    /// (047, 0x2F) Regulating step command
    C_RC_NA_1,
    /// (048, 0x30) Set-point Command, normalised value
    C_SE_NA_1,
    /// (049, 0x31) Set-point Command, scaled value
    C_SE_NB_1,
    /// (050, 0x32) Set-point Command, short floating point number
    C_SE_NC_1,
    /// (051, 0x33) Bitstring 32 bit command
    C_BO_NA_1,
    /// (058, 0x3A) Single command with time tag CP56Time2a
    C_SC_TA_1,
    /// (059, 0x3B) Double command with time tag CP56Time2a
    C_DC_TA_1,
    /// (060, 0x3C) Regulating step command with time tag CP56Time2a
    C_RC_TA_1,
    /// (061, 0x3D) Measured value, normalised value command with time tag CP56Time2a
    C_SE_TA_1,
    /// (062, 0x3E) Measured value, scaled value command with time tag CP56Time2a
    C_SE_TB_1,
    /// (063, 0x3F) Measured value, short floating point number command with time tag CP56Time2a
    C_SE_TC_1,
    /// (064, 0x40) Bitstring of 32 bit command with time tag CP56Time2a
    C_BO_TA_1,
    /// (070, 0x46) End of Initialisation
    M_EI_NA_1,
    /// (100, 0x64) Interrogation command
    C_IC_NA_1,
    /// (101, 0x65) Counter interrogation command
    C_CI_NA_1,
    /// (102, 0x66) Read Command
    C_RD_NA_1,
    /// (103, 0x67) Clock synchronisation command
    C_CS_NA_1,
    /// (104, 0x68) Test command
    C_TS_NA_1,
    /// (105, 0x69) Reset process command
    C_RP_NA_1,
    /// (106, 0x6A) Delay acquisition command
    C_CD_NA_1,
    /// (107, 0x6B) Test command with time tag CP56Time2a
    C_TS_TA_1,
    /// (110, 0x6E) Parameter of measured values, normalized value
    P_ME_NA_1,
    /// (111, 0x6F) Parameter of measured values, scaled value
    P_ME_NB_1,
    /// (112, 0x70) Parameter of measured values, short floating point number
    P_ME_NC_1,
    /// (113, 0x71) Parameter activation
    P_AC_NA_1,
}

impl Default for DataType {
    fn default() -> (r: Self)
        ensures
            r == DataType::ASDU_TYPEUNDEF,
    {
        DataType::ASDU_TYPEUNDEF
    }
}

impl DataType {
    /// The type identifier of each data type.
    pub open spec fn spec_code(self) -> u8 {
        match self {
            DataType::ASDU_TYPEUNDEF => 0,
            DataType::M_SP_NA_1 => 1,
            DataType::M_SP_TA_1 => 2,
            DataType::M_DP_NA_1 => 3,
            DataType::M_DP_TA_1 => 4,
            DataType::M_ST_NA_1 => 5,
            DataType::M_ST_TA_1 => 6,
            DataType::M_BO_NA_1 => 7,
            DataType::M_BO_TA_1 => 8,
            DataType::M_ME_NA_1 => 9,
            DataType::M_ME_TA_1 => 10,
            DataType::M_ME_NB_1 => 11,
            DataType::M_ME_TB_1 => 12,
            DataType::M_ME_NC_1 => 13,
            DataType::M_ME_TC_1 => 14,
            DataType::M_IT_NA_1 => 15,
            DataType::M_IT_TA_1 => 16,
            DataType::M_EP_TA_1 => 17,
            DataType::M_EP_TB_1 => 18,
            DataType::M_EP_TC_1 => 19,
            DataType::M_PS_NA_1 => 20,
            DataType::M_ME_ND_1 => 21,
            DataType::M_SP_TB_1 => 30,
            DataType::M_DP_TB_1 => 31,
            DataType::M_ST_TB_1 => 32,
            DataType::M_BO_TB_1 => 33,
            DataType::M_ME_TD_1 => 34,
            DataType::M_ME_TE_1 => 35,
            DataType::M_ME_TF_1 => 36,
            DataType::M_IT_TB_1 => 37,
            DataType::M_EP_TD_1 => 38,
            DataType::M_EP_TE_1 => 39,
            DataType::M_EP_TF_1 => 40,
            DataType::C_SC_NA_1 => 45,
            DataType::C_DC_NA_1 => 46,
            DataType::C_RC_NA_1 => 47,
            DataType::C_SE_NA_1 => 48,
            DataType::C_SE_NB_1 => 49,
            DataType::C_SE_NC_1 => 50,
            DataType::C_BO_NA_1 => 51,
            DataType::C_SC_TA_1 => 58,
            DataType::C_DC_TA_1 => 59,
            DataType::C_RC_TA_1 => 60,
            DataType::C_SE_TA_1 => 61,
            DataType::C_SE_TB_1 => 62,
            DataType::C_SE_TC_1 => 63,
            DataType::C_BO_TA_1 => 64,
            DataType::M_EI_NA_1 => 70,
            DataType::C_IC_NA_1 => 100,
            DataType::C_CI_NA_1 => 101,
            DataType::C_RD_NA_1 => 102,
            DataType::C_CS_NA_1 => 103,
            DataType::C_TS_NA_1 => 104,
            DataType::C_RP_NA_1 => 105,
            DataType::C_CD_NA_1 => 106,
            DataType::C_TS_TA_1 => 107,
            DataType::P_ME_NA_1 => 110,
            DataType::P_ME_NB_1 => 111,
            DataType::P_ME_NC_1 => 112,
            DataType::P_AC_NA_1 => 113,
        }
    }

    /// The number of bytes of the value proper: what stands before the quality descriptor
    /// and the time tag.
    pub open spec fn spec_value_len(self) -> nat {
        match self {
            DataType::M_ST_NA_1 | DataType::M_ST_TA_1 | DataType::M_ST_TB_1
            | DataType::C_SC_NA_1 | DataType::C_DC_NA_1 | DataType::C_RC_NA_1
            | DataType::C_SC_TA_1 | DataType::C_DC_TA_1 | DataType::C_RC_TA_1
            | DataType::M_EI_NA_1 | DataType::C_IC_NA_1 | DataType::C_CI_NA_1
            | DataType::C_RP_NA_1 | DataType::P_AC_NA_1 => 1,
            DataType::M_ME_NA_1 | DataType::M_ME_TA_1 | DataType::M_ME_NB_1
            | DataType::M_ME_TB_1 | DataType::M_EP_TA_1 | DataType::M_ME_ND_1
            | DataType::M_ME_TD_1 | DataType::M_ME_TE_1 | DataType::M_EP_TD_1
            | DataType::C_SE_NA_1 | DataType::C_SE_NB_1 | DataType::C_SE_TA_1
            | DataType::C_SE_TB_1 | DataType::C_TS_NA_1 | DataType::C_CD_NA_1
            | DataType::C_TS_TA_1 | DataType::P_ME_NA_1 | DataType::P_ME_NB_1 => 2,
            DataType::M_EP_TB_1 | DataType::M_EP_TC_1 | DataType::M_EP_TE_1
            | DataType::M_EP_TF_1 => 3,
            DataType::M_BO_NA_1 | DataType::M_BO_TA_1 | DataType::M_ME_NC_1
            | DataType::M_ME_TC_1 | DataType::M_IT_NA_1 | DataType::M_IT_TA_1
            | DataType::M_PS_NA_1 | DataType::M_BO_TB_1 | DataType::M_ME_TF_1
            | DataType::M_IT_TB_1 | DataType::C_SE_NC_1 | DataType::C_BO_NA_1
            | DataType::C_SE_TC_1 | DataType::C_BO_TA_1 | DataType::P_ME_NC_1 => 4,
            _ => 0,
        }
    }

    /// The number of bytes of the quality descriptor or qualifier that follows the value:
    /// one or none.
    pub open spec fn spec_quality_len(self) -> nat {
        match self {
            DataType::ASDU_TYPEUNDEF | DataType::M_ME_ND_1 | DataType::C_SC_NA_1
            | DataType::C_DC_NA_1 | DataType::C_RC_NA_1 | DataType::C_BO_NA_1
            | DataType::C_SC_TA_1 | DataType::C_DC_TA_1 | DataType::C_RC_TA_1
            | DataType::C_BO_TA_1 | DataType::M_EI_NA_1 | DataType::C_IC_NA_1
            | DataType::C_CI_NA_1 | DataType::C_RD_NA_1 | DataType::C_CS_NA_1
            | DataType::C_TS_NA_1 | DataType::C_RP_NA_1 | DataType::C_CD_NA_1
            | DataType::C_TS_TA_1 | DataType::P_AC_NA_1 => 0,
            _ => 1,
        }
    }

    /// The number of bytes of the time tag that ends the payload: none, three for
    /// CP24Time2a, seven for CP56Time2a.
    pub open spec fn spec_time_tag_len(self) -> nat {
        match self {
            DataType::M_SP_TA_1 | DataType::M_DP_TA_1 | DataType::M_ST_TA_1
            | DataType::M_BO_TA_1 | DataType::M_ME_TA_1 | DataType::M_ME_TB_1
            | DataType::M_ME_TC_1 | DataType::M_IT_TA_1 | DataType::M_EP_TA_1
            | DataType::M_EP_TB_1 | DataType::M_EP_TC_1 => 3,
            DataType::M_SP_TB_1 | DataType::M_DP_TB_1 | DataType::M_ST_TB_1
            | DataType::M_BO_TB_1 | DataType::M_ME_TD_1 | DataType::M_ME_TE_1
            | DataType::M_ME_TF_1 | DataType::M_IT_TB_1 | DataType::M_EP_TD_1
            | DataType::M_EP_TE_1 | DataType::M_EP_TF_1 | DataType::C_SC_TA_1
            | DataType::C_DC_TA_1 | DataType::C_RC_TA_1 | DataType::C_SE_TA_1
            | DataType::C_SE_TB_1 | DataType::C_SE_TC_1 | DataType::C_BO_TA_1
            | DataType::C_CS_NA_1 | DataType::C_TS_TA_1 => 7,
            _ => 0,
        }
    }

    /// The payload size of a data type: value, quality descriptor and time tag together.
    pub open spec fn spec_size(self) -> nat {
        self.spec_value_len() + self.spec_quality_len() + self.spec_time_tag_len()
    }

    /// The type identifier of this data type.
    pub fn code(self) -> (r: u8)
        ensures
            r == self.spec_code(),
    {
        match self {
            DataType::ASDU_TYPEUNDEF => 0,
            DataType::M_SP_NA_1 => 1,
            DataType::M_SP_TA_1 => 2,
            DataType::M_DP_NA_1 => 3,
            DataType::M_DP_TA_1 => 4,
            DataType::M_ST_NA_1 => 5,
            DataType::M_ST_TA_1 => 6,
            DataType::M_BO_NA_1 => 7,
            DataType::M_BO_TA_1 => 8,
            DataType::M_ME_NA_1 => 9,
            DataType::M_ME_TA_1 => 10,
            DataType::M_ME_NB_1 => 11,
            DataType::M_ME_TB_1 => 12,
            DataType::M_ME_NC_1 => 13,
            DataType::M_ME_TC_1 => 14,
            DataType::M_IT_NA_1 => 15,
            DataType::M_IT_TA_1 => 16,
            DataType::M_EP_TA_1 => 17,
            DataType::M_EP_TB_1 => 18,
            DataType::M_EP_TC_1 => 19,
            DataType::M_PS_NA_1 => 20,
            DataType::M_ME_ND_1 => 21,
            DataType::M_SP_TB_1 => 30,
            DataType::M_DP_TB_1 => 31,
            DataType::M_ST_TB_1 => 32,
            DataType::M_BO_TB_1 => 33,
            DataType::M_ME_TD_1 => 34,
            DataType::M_ME_TE_1 => 35,
            DataType::M_ME_TF_1 => 36,
            DataType::M_IT_TB_1 => 37,
            DataType::M_EP_TD_1 => 38,
            DataType::M_EP_TE_1 => 39,
            DataType::M_EP_TF_1 => 40,
            DataType::C_SC_NA_1 => 45,
            DataType::C_DC_NA_1 => 46,
            DataType::C_RC_NA_1 => 47,
            DataType::C_SE_NA_1 => 48,
            DataType::C_SE_NB_1 => 49,
            DataType::C_SE_NC_1 => 50,
            DataType::C_BO_NA_1 => 51,
            DataType::C_SC_TA_1 => 58,
            DataType::C_DC_TA_1 => 59,
            DataType::C_RC_TA_1 => 60,
            DataType::C_SE_TA_1 => 61,
            DataType::C_SE_TB_1 => 62,
            DataType::C_SE_TC_1 => 63,
            DataType::C_BO_TA_1 => 64,
            DataType::M_EI_NA_1 => 70,
            DataType::C_IC_NA_1 => 100,
            DataType::C_CI_NA_1 => 101,
            DataType::C_RD_NA_1 => 102,
            DataType::C_CS_NA_1 => 103,
            DataType::C_TS_NA_1 => 104,
            DataType::C_RP_NA_1 => 105,
            DataType::C_CD_NA_1 => 106,
            DataType::C_TS_TA_1 => 107,
            DataType::P_ME_NA_1 => 110,
            DataType::P_ME_NB_1 => 111,
            DataType::P_ME_NC_1 => 112,
            DataType::P_AC_NA_1 => 113,
        }
    }

    /// Get the size of the data type in bytes
    pub fn size(self) -> (r: usize)
        ensures
            r == self.spec_size(),
            r <= MAX_IEC_DATA_LEN,
    {
        match self {
            DataType::ASDU_TYPEUNDEF => 0,
            DataType::M_SP_NA_1 => 1,
            DataType::M_SP_TA_1 => 4,
            DataType::M_DP_NA_1 => 1,
            DataType::M_DP_TA_1 => 4,
            DataType::M_ST_NA_1 => 2,
            DataType::M_ST_TA_1 => 5,
            DataType::M_BO_NA_1 => 5,
            DataType::M_BO_TA_1 => 8,
            DataType::M_ME_NA_1 => 3,
            DataType::M_ME_TA_1 => 6,
            DataType::M_ME_NB_1 => 3,
            DataType::M_ME_TB_1 => 6,
            DataType::M_ME_NC_1 => 5,
            DataType::M_ME_TC_1 => 8,
            DataType::M_IT_NA_1 => 5,
            DataType::M_IT_TA_1 => 8,
            DataType::M_EP_TA_1 => 6,
            DataType::M_EP_TB_1 => 7,
            DataType::M_EP_TC_1 => 7,
            DataType::M_PS_NA_1 => 5,
            DataType::M_ME_ND_1 => 2,
            DataType::M_SP_TB_1 => 8,
            DataType::M_DP_TB_1 => 8,
            DataType::M_ST_TB_1 => 9,
            DataType::M_BO_TB_1 => 12,
            DataType::M_ME_TD_1 => 10,
            DataType::M_ME_TE_1 => 10,
            DataType::M_ME_TF_1 => 12,
            DataType::M_IT_TB_1 => 12,
            DataType::M_EP_TD_1 => 10,
            DataType::M_EP_TE_1 => 11,
            DataType::M_EP_TF_1 => 11,
            DataType::C_SC_NA_1 => 1,
            DataType::C_DC_NA_1 => 1,
            DataType::C_RC_NA_1 => 1,
            DataType::C_SE_NA_1 => 3,
            DataType::C_SE_NB_1 => 3,
            DataType::C_SE_NC_1 => 5,
            DataType::C_BO_NA_1 => 4,
            DataType::C_SC_TA_1 => 8,
            DataType::C_DC_TA_1 => 8,
            DataType::C_RC_TA_1 => 8,
            DataType::C_SE_TA_1 => 10,
            DataType::C_SE_TB_1 => 10,
            DataType::C_SE_TC_1 => 12,
            DataType::C_BO_TA_1 => 11,
            DataType::M_EI_NA_1 => 1,
            DataType::C_IC_NA_1 => 1,
            DataType::C_CI_NA_1 => 1,
            DataType::C_RD_NA_1 => 0,
            DataType::C_CS_NA_1 => 7,
            DataType::C_TS_NA_1 => 2,
            DataType::C_RP_NA_1 => 1,
            DataType::C_CD_NA_1 => 2,
            DataType::C_TS_TA_1 => 9,
            DataType::P_ME_NA_1 => 3,
            DataType::P_ME_NB_1 => 3,
            DataType::P_ME_NC_1 => 5,
            DataType::P_AC_NA_1 => 1,
        }
    }

    /// The type identifier names the data type: decoding the identifier of a data type
    /// gives that data type back.
    pub proof fn lemma_code_round_trip(self)
        ensures
            DataType::try_from_spec(self.spec_code()) == Ok::<DataType, Error>(self),
    {
    }

    /// A byte that decodes to a data type is that data type's identifier, and any other
    /// byte is refused with the byte attached.
    pub proof fn lemma_try_from_exact(value: u8)
        ensures
            match DataType::try_from_spec(value) {
                Ok(t) => t.spec_code() == value,
                Err(e) => e == Error::DataType(value),
            },
    {
    }
}

impl TryFrom<u8> for DataType {
    type Error = Error;

    fn try_from(value: u8) -> (r: Result<Self, Error>) {
        match value {
            0 => Ok(DataType::ASDU_TYPEUNDEF),
            1 => Ok(DataType::M_SP_NA_1),
            2 => Ok(DataType::M_SP_TA_1),
            3 => Ok(DataType::M_DP_NA_1),
            4 => Ok(DataType::M_DP_TA_1),
            5 => Ok(DataType::M_ST_NA_1),
            6 => Ok(DataType::M_ST_TA_1),
            7 => Ok(DataType::M_BO_NA_1),
            8 => Ok(DataType::M_BO_TA_1),
            9 => Ok(DataType::M_ME_NA_1),
            10 => Ok(DataType::M_ME_TA_1),
            11 => Ok(DataType::M_ME_NB_1),
            12 => Ok(DataType::M_ME_TB_1),
            13 => Ok(DataType::M_ME_NC_1),
            14 => Ok(DataType::M_ME_TC_1),
            15 => Ok(DataType::M_IT_NA_1),
            16 => Ok(DataType::M_IT_TA_1),
            17 => Ok(DataType::M_EP_TA_1),
            18 => Ok(DataType::M_EP_TB_1),
            19 => Ok(DataType::M_EP_TC_1),
            20 => Ok(DataType::M_PS_NA_1),
            21 => Ok(DataType::M_ME_ND_1),
            30 => Ok(DataType::M_SP_TB_1),
            31 => Ok(DataType::M_DP_TB_1),
            32 => Ok(DataType::M_ST_TB_1),
            33 => Ok(DataType::M_BO_TB_1),
            34 => Ok(DataType::M_ME_TD_1),
            35 => Ok(DataType::M_ME_TE_1),
            36 => Ok(DataType::M_ME_TF_1),
            37 => Ok(DataType::M_IT_TB_1),
            38 => Ok(DataType::M_EP_TD_1),
            39 => Ok(DataType::M_EP_TE_1),
            40 => Ok(DataType::M_EP_TF_1),
            45 => Ok(DataType::C_SC_NA_1),
            46 => Ok(DataType::C_DC_NA_1),
            47 => Ok(DataType::C_RC_NA_1),
            48 => Ok(DataType::C_SE_NA_1),
            49 => Ok(DataType::C_SE_NB_1),
            50 => Ok(DataType::C_SE_NC_1),
            51 => Ok(DataType::C_BO_NA_1),
            58 => Ok(DataType::C_SC_TA_1),
            59 => Ok(DataType::C_DC_TA_1),
            60 => Ok(DataType::C_RC_TA_1),
            61 => Ok(DataType::C_SE_TA_1),
            62 => Ok(DataType::C_SE_TB_1),
            63 => Ok(DataType::C_SE_TC_1),
            64 => Ok(DataType::C_BO_TA_1),
            70 => Ok(DataType::M_EI_NA_1),
            100 => Ok(DataType::C_IC_NA_1),
            101 => Ok(DataType::C_CI_NA_1),
            102 => Ok(DataType::C_RD_NA_1),
            103 => Ok(DataType::C_CS_NA_1),
            104 => Ok(DataType::C_TS_NA_1),
            105 => Ok(DataType::C_RP_NA_1),
            106 => Ok(DataType::C_CD_NA_1),
            107 => Ok(DataType::C_TS_TA_1),
            110 => Ok(DataType::P_ME_NA_1),
            111 => Ok(DataType::P_ME_NB_1),
            112 => Ok(DataType::P_ME_NC_1),
            113 => Ok(DataType::P_AC_NA_1),
            v => Err(Error::DataType(v)),
        }
    }
}

impl vstd::std_specs::convert::TryFromSpecImpl<u8> for DataType {
    open spec fn obeys_try_from_spec() -> bool {
        true
    }

    open spec fn try_from_spec(value: u8) -> Result<Self, Error> {
        match value {
            0 => Ok(DataType::ASDU_TYPEUNDEF),
            1 => Ok(DataType::M_SP_NA_1),
            2 => Ok(DataType::M_SP_TA_1),
            3 => Ok(DataType::M_DP_NA_1),
            4 => Ok(DataType::M_DP_TA_1),
            5 => Ok(DataType::M_ST_NA_1),
            6 => Ok(DataType::M_ST_TA_1),
            7 => Ok(DataType::M_BO_NA_1),
            8 => Ok(DataType::M_BO_TA_1),
            9 => Ok(DataType::M_ME_NA_1),
            10 => Ok(DataType::M_ME_TA_1),
            11 => Ok(DataType::M_ME_NB_1),
            12 => Ok(DataType::M_ME_TB_1),
            13 => Ok(DataType::M_ME_NC_1),
            14 => Ok(DataType::M_ME_TC_1),
            15 => Ok(DataType::M_IT_NA_1),
            16 => Ok(DataType::M_IT_TA_1),
            17 => Ok(DataType::M_EP_TA_1),
            18 => Ok(DataType::M_EP_TB_1),
            19 => Ok(DataType::M_EP_TC_1),
            20 => Ok(DataType::M_PS_NA_1),
            21 => Ok(DataType::M_ME_ND_1),
            30 => Ok(DataType::M_SP_TB_1),
            31 => Ok(DataType::M_DP_TB_1),
            32 => Ok(DataType::M_ST_TB_1),
            33 => Ok(DataType::M_BO_TB_1),
            34 => Ok(DataType::M_ME_TD_1),
            35 => Ok(DataType::M_ME_TE_1),
            36 => Ok(DataType::M_ME_TF_1),
            37 => Ok(DataType::M_IT_TB_1),
            38 => Ok(DataType::M_EP_TD_1),
            39 => Ok(DataType::M_EP_TE_1),
            40 => Ok(DataType::M_EP_TF_1),
            45 => Ok(DataType::C_SC_NA_1),
            46 => Ok(DataType::C_DC_NA_1),
            47 => Ok(DataType::C_RC_NA_1),
            48 => Ok(DataType::C_SE_NA_1),
            49 => Ok(DataType::C_SE_NB_1),
            50 => Ok(DataType::C_SE_NC_1),
            51 => Ok(DataType::C_BO_NA_1),
            58 => Ok(DataType::C_SC_TA_1),
            59 => Ok(DataType::C_DC_TA_1),
            60 => Ok(DataType::C_RC_TA_1),
            61 => Ok(DataType::C_SE_TA_1),
            62 => Ok(DataType::C_SE_TB_1),
            63 => Ok(DataType::C_SE_TC_1),
            64 => Ok(DataType::C_BO_TA_1),
            70 => Ok(DataType::M_EI_NA_1),
            100 => Ok(DataType::C_IC_NA_1),
            101 => Ok(DataType::C_CI_NA_1),
            102 => Ok(DataType::C_RD_NA_1),
            103 => Ok(DataType::C_CS_NA_1),
            104 => Ok(DataType::C_TS_NA_1),
            105 => Ok(DataType::C_RP_NA_1),
            106 => Ok(DataType::C_CD_NA_1),
            107 => Ok(DataType::C_TS_TA_1),
            110 => Ok(DataType::P_ME_NA_1),
            111 => Ok(DataType::P_ME_NB_1),
            112 => Ok(DataType::P_ME_NC_1),
            113 => Ok(DataType::P_AC_NA_1),
            v => Err(Error::DataType(v)),
        }
    }
}

} // verus!
