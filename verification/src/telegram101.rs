use crate::types::datatype::DataType;
use crate::types::{DataBuffer, Iou, COT};
use crate::wire::{
    buf_checksum, flag, lemma_cot_byte, lemma_count_byte, lemma_le_round_trip, lemma_masked,
    lemma_le_value_bound, lemma_objects_len, lemma_objects_round_trip,
    lemma_parsed_objects_canonical, parse_objects, push_le, push_objects, read_le,
    spec_checksum,
    spec_cot_byte, spec_count_byte, spec_flag, spec_le_bytes, spec_le_value, spec_objects,
    spec_objects_canonical, spec_objects_len, spec_parse_objects, spec_width_limit,
};
use crate::{Error, Malformed};
use vstd::prelude::*;
use vstd::std_specs::convert::TryFromSpec;

verus! {

/// Start marker of a variable-length frame
pub const IEC_HEADER: u8 = 0x68;

/// Start marker of a fixed-length frame
pub const IEC_HEADER_FIXED: u8 = 0x10;

/// Stop marker of both kinds of frame
pub const IEC_STOP: u8 = 0x16;

/// IEC 60870-5-101 telegram configuration (used with each telegram)
/// Defaults: link_address_len = 1, originator_address_len = 1, adsu_address_len = 2,
/// iou_address_len = 3
#[derive(Debug, Clone, Copy, PartialEq, Eq, Structural)]
pub struct Config {
    link_address_len: u8,
    originator_address_len: u8,
    adsu_address_len: u8,
    iou_address_len: u8,
}

impl Default for Config {
    fn default() -> (r: Self)
        ensures
            r.spec_link_address_len() == 1,
            r.spec_originator_address_len() == 1,
            r.spec_adsu_address_len() == 2,
            r.spec_iou_address_len() == 3,
    {
        Self {
            link_address_len: 1,
            originator_address_len: 1,
            adsu_address_len: 2,
            iou_address_len: 3,
        }
    }
}

impl Config {
    /// Width of the link address in bytes
    pub closed spec fn spec_link_address_len(self) -> nat {
        self.link_address_len as nat
    }

    /// Width of the originator address in bytes
    pub closed spec fn spec_originator_address_len(self) -> nat {
        self.originator_address_len as nat
    }

    /// Width of the application (ADSU) address in bytes
    pub closed spec fn spec_adsu_address_len(self) -> nat {
        self.adsu_address_len as nat
    }

    /// Width of an information object address in bytes
    pub closed spec fn spec_iou_address_len(self) -> nat {
        self.iou_address_len as nat
    }

    /// Every width is in its range: link address 0 to 2, originator 0 to 1, application address
    /// 1 to 2, object address 1 to 3. Every configuration satisfies this.
    #[verifier::type_invariant]
    pub open spec fn valid(self) -> bool {
        &&& self.spec_link_address_len() <= 2
        &&& self.spec_originator_address_len() <= 1
        &&& 1 <= self.spec_adsu_address_len() <= 2
        &&& 1 <= self.spec_iou_address_len() <= 3
    }

    /// Create a new configuration
    pub fn new() -> (r: Self)
        ensures
            r.spec_link_address_len() == 1,
            r.spec_originator_address_len() == 1,
            r.spec_adsu_address_len() == 2,
            r.spec_iou_address_len() == 3,
    {
        Self::default()
    }

    /// Sets the width of the link address, which is at most 2.
    pub fn with_link_address_len(self, link_address_len: u8) -> (r: Self)
        requires
            link_address_len <= 2,
        ensures
            r.spec_link_address_len() == link_address_len,
            r.spec_originator_address_len() == self.spec_originator_address_len(),
            r.spec_adsu_address_len() == self.spec_adsu_address_len(),
            r.spec_iou_address_len() == self.spec_iou_address_len(),
    {
        proof {
            use_type_invariant(&self);
        }
        Config { link_address_len, ..self }
    }

    /// Sets the width of the originator address, which is at most 1.
    pub fn with_originator_address_len(self, originator_address_len: u8) -> (r: Self)
        requires
            originator_address_len <= 1,
        ensures
            r.spec_link_address_len() == self.spec_link_address_len(),
            r.spec_originator_address_len() == originator_address_len,
            r.spec_adsu_address_len() == self.spec_adsu_address_len(),
            r.spec_iou_address_len() == self.spec_iou_address_len(),
    {
        proof {
            use_type_invariant(&self);
        }
        Config { originator_address_len, ..self }
    }

    /// Sets the width of the application address, which is 1 or 2.
    pub fn with_adsu_address_len(self, adsu_address_len: u8) -> (r: Self)
        requires
            1 <= adsu_address_len <= 2,
        ensures
            r.spec_link_address_len() == self.spec_link_address_len(),
            r.spec_originator_address_len() == self.spec_originator_address_len(),
            r.spec_adsu_address_len() == adsu_address_len,
            r.spec_iou_address_len() == self.spec_iou_address_len(),
    {
        proof {
            use_type_invariant(&self);
        }
        Config { adsu_address_len, ..self }
    }

    /// Sets the width of an information object address, which is 1, 2 or 3.
    pub fn with_iou_address_len(self, iou_address_len: u8) -> (r: Self)
        requires
            1 <= iou_address_len <= 3,
        ensures
            r.spec_link_address_len() == self.spec_link_address_len(),
            r.spec_originator_address_len() == self.spec_originator_address_len(),
            r.spec_adsu_address_len() == self.spec_adsu_address_len(),
            r.spec_iou_address_len() == iou_address_len,
    {
        proof {
            use_type_invariant(&self);
        }
        Config { iou_address_len, ..self }
    }
}

/// What a serial telegram holds.
pub struct Telegram101View {
    /// PRM bit: set by a master
    pub prm: bool,
    /// FCB/ACD bit
    pub fcb_acd: bool,
    /// FCV/DFC bit
    pub fcv_dfc: bool,
    /// Function code (bits 0 to 3 of the control byte)
    pub function_code: u8,
    /// Link address
    pub link_address: u32,
    /// Type identifier
    pub data_type: DataType,
    /// Test bit
    pub test: bool,
    /// Negative confirmation bit
    pub negative: bool,
    /// Cause of transmission; `None` marks a fixed-length telegram
    pub cot: Option<COT>,
    /// Originator address
    pub originator: u16,
    /// Application (ADSU) address
    pub adsu: u16,
    /// Information objects
    pub iou: Seq<Iou>,
    /// Whether the objects are addressed sequentially
    pub sequental: bool,
    /// Address widths
    pub config: Config,
}

/// IEC 60870-5-101 telegram
#[derive(Debug, Clone)]
pub struct Telegram101 {
    prm: bool,
    fcb_acd: bool,
    fcv_dfc: bool,
    function_code: u8,
    link_address: u32,
    data_type: DataType,
    test: bool,
    negative: bool,
    cot: Option<COT>,  // None for fixed length
    originator: u16,
    adsu: u16,
    iou: Vec<Iou>,
    sequental: bool,
    config: Config,
}

impl View for Telegram101 {
    type V = Telegram101View;

    closed spec fn view(&self) -> Telegram101View {
        Telegram101View {
            prm: self.prm,
            fcb_acd: self.fcb_acd,
            fcv_dfc: self.fcv_dfc,
            function_code: self.function_code,
            link_address: self.link_address,
            data_type: self.data_type,
            test: self.test,
            negative: self.negative,
            cot: self.cot,
            originator: self.originator,
            adsu: self.adsu,
            iou: self.iou@,
            sequental: self.sequental,
            config: self.config,
        }
    }
}

impl Telegram101 {
    /// Create a new telegram
    pub fn new(data_type: DataType, cot: COT, adsu: u16, config: Config) -> (r: Self)
        ensures
            r@ == (Telegram101View {
                prm: false,
                fcb_acd: false,
                fcv_dfc: false,
                function_code: 0,
                link_address: 0,
                data_type,
                test: false,
                negative: false,
                cot: Some(cot),
                originator: 0,
                adsu,
                iou: Seq::empty(),
                sequental: false,
                config,
            }),
    {
        Self {
            prm: false,
            fcb_acd: false,
            fcv_dfc: false,
            function_code: 0,
            link_address: 0,
            data_type,
            test: false,
            negative: false,
            cot: Some(cot),
            originator: 0,
            adsu,
            iou: Vec::new(),
            sequental: false,
            config,
        }
    }

    /// Create a new fixed length telegram
    pub fn new_fixed(config: Config) -> (r: Self)
        ensures
            r@ == (Telegram101View {
                prm: false,
                fcb_acd: false,
                fcv_dfc: false,
                function_code: 0,
                link_address: 0,
                data_type: DataType::ASDU_TYPEUNDEF,
                test: false,
                negative: false,
                cot: None,
                originator: 0,
                adsu: 0,
                iou: Seq::empty(),
                sequental: false,
                config,
            }),
    {
        Self {
            prm: false,
            fcb_acd: false,
            fcv_dfc: false,
            function_code: 0,
            link_address: 0,
            data_type: DataType::ASDU_TYPEUNDEF,
            test: false,
            negative: false,
            cot: None,
            originator: 0,
            adsu: 0,
            iou: Vec::new(),
            sequental: false,
            config,
        }
    }

    /// Is this a fixed length telegram
    pub fn is_fixed(&self) -> (r: bool)
        ensures
            r == (self@.cot is None),
    {
        self.cot.is_none()
    }

    /// PRM=true if master, PRM=false if slave
    pub fn with_prm(self, value: bool) -> (r: Self)
        ensures
            r@ == (Telegram101View { prm: value, ..self@ }),
    {
        let mut t = self;
        t.prm = value;
        t
    }

    /// FBC/ACD bit
    pub fn with_fcb_acd(self, value: bool) -> (r: Self)
        ensures
            r@ == (Telegram101View { fcb_acd: value, ..self@ }),
    {
        let mut t = self;
        t.fcb_acd = value;
        t
    }

    /// FCV/DFC bit
    pub fn with_fcv_dfc(self, value: bool) -> (r: Self)
        ensures
            r@ == (Telegram101View { fcv_dfc: value, ..self@ }),
    {
        let mut t = self;
        t.fcv_dfc = value;
        t
    }

    /// Function code
    pub fn with_function_code(self, value: u8) -> (r: Self)
        ensures
            r@ == (Telegram101View { function_code: value, ..self@ }),
    {
        let mut t = self;
        t.function_code = value;
        t
    }

    /// Link address
    pub fn with_link_address(self, value: u32) -> (r: Self)
        ensures
            r@ == (Telegram101View { link_address: value, ..self@ }),
    {
        let mut t = self;
        t.link_address = value;
        t
    }

    /// Forcibly set sequential
    pub fn with_seq(self) -> (r: Self)
        ensures
            r@ == (Telegram101View { sequental: true, ..self@ }),
    {
        let mut t = self;
        t.sequental = true;
        t
    }

    /// Set test bit
    pub fn with_test(self) -> (r: Self)
        ensures
            r@ == (Telegram101View { test: true, ..self@ }),
    {
        let mut t = self;
        t.test = true;
        t
    }

    /// Set negative bit
    pub fn with_negative(self) -> (r: Self)
        ensures
            r@ == (Telegram101View { negative: true, ..self@ }),
    {
        let mut t = self;
        t.negative = true;
        t
    }

    /// Set originator address
    pub fn with_originator(self, originator: u16) -> (r: Self)
        ensures
            r@ == (Telegram101View { originator: originator, ..self@ }),
    {
        let mut t = self;
        t.originator = originator;
        t
    }

    /// Type identifier
    pub fn data_type(&self) -> (r: DataType)
        ensures
            r == self@.data_type,
    {
        self.data_type
    }

    /// ADSU
    pub fn adsu(&self) -> (r: u16)
        ensures
            r == self@.adsu,
    {
        self.adsu
    }

    /// Is this a test telegram
    pub fn is_test(&self) -> (r: bool)
        ensures
            r == self@.test,
    {
        self.test
    }

    /// Negative=True if negative confirmation
    pub fn is_negative(&self) -> (r: bool)
        ensures
            r == self@.negative,
    {
        self.negative
    }

    /// Is the data sequental
    pub fn is_sequental(&self) -> (r: bool)
        ensures
            r == self@.sequental,
    {
        self.sequental
    }

    /// Link address
    pub fn link_address(&self) -> (r: u32)
        ensures
            r == self@.link_address,
    {
        self.link_address
    }

    /// Originator address
    pub fn originator(&self) -> (r: u16)
        ensures
            r == self@.originator,
    {
        self.originator
    }

    /// COT; `Unused` for a fixed length telegram
    pub fn cot(&self) -> (r: COT)
        ensures
            r == (match self@.cot {
                Some(c) => c,
                None => COT::Unused,
            }),
    {
        match self.cot {
            Some(c) => c,
            None => COT::Unused,
        }
    }

    /// Information objects
    pub fn iou(&self) -> (r: &[Iou])
        ensures
            r@ == self@.iou,
    {
        self.iou.as_slice()
    }

    /// Mutable information objects
    pub fn iou_mut(&mut self) -> (r: &mut [Iou])
        ensures
            r@ == old(self)@.iou,
            final(self)@ == (Telegram101View { iou: final(r)@, ..old(self)@ }),
    {
        self.iou.as_mut_slice()
    }

    /// Clear information objects
    pub fn clear_iou(&mut self)
        ensures
            final(self)@ == (Telegram101View { iou: Seq::empty(), ..old(self)@ }),
    {
        self.iou.clear();
    }

    /// Set IOU from Vec
    pub fn with_iou(self, iou: Vec<Iou>) -> (r: Self)
        ensures
            r@ == (Telegram101View { iou: iou@, ..self@ }),
    {
        let mut t = self;
        t.iou = iou;
        t
    }

    /// Append a single IOU
    pub fn append_iou<T: Into<DataBuffer>>(&mut self, address: u32, value: T)
        ensures
            final(self)@.iou.len() == old(self)@.iou.len() + 1,
            final(self)@ == (Telegram101View {
                iou: old(self)@.iou.push(final(self)@.iou.last()),
                ..old(self)@
            }),
            final(self)@.iou.last().address == address,
            call_ensures(T::into, (value,), final(self)@.iou.last().value),
    {
        self.iou.push(Iou::new(address, value));
    }

    /// Append next IOU in sequence (marks the telegram data as sequental)
    pub fn append_iou_seq<T: Into<DataBuffer>>(&mut self, value: T)
        ensures
            final(self)@.iou.len() == old(self)@.iou.len() + 1,
            final(self)@ == (Telegram101View {
                iou: old(self)@.iou.push(final(self)@.iou.last()),
                sequental: true,
                ..old(self)@
            }),
            final(self)@.iou.last().address == 0,
            call_ensures(T::into, (value,), final(self)@.iou.last().value),
    {
        self.sequental = true;
        self.iou.push(Iou::new(0, value));
    }

    fn read_variable_length(bytes: &[u8], config: Config) -> (r: Result<Self, Error>)
        requires
            bytes@.len() >= 1,
        ensures
            match r {
                Ok(t) => spec_read_variable(bytes@, config) == Ok::<Telegram101View, Error>(t@),
                Err(e) => spec_read_variable(bytes@, config) == Err::<Telegram101View, Error>(e),
            },
    {
        proof {
            use_type_invariant(&config);
        }
        if bytes.len() < 4 {
            return Err(Error::Io);
        }
        let length: u8 = bytes[1];
        if length != bytes[2] {
            return Err(Error::InvalidData(Malformed::Length));
        }
        if length > 253 {
            return Err(Error::InvalidData(Malformed::TooLong));
        }
        if bytes[3] != IEC_HEADER {
            return Err(Error::InvalidData(Malformed::Header));
        }
        let end: usize = 4 + length as usize;
        if bytes.len() < end + 2 {
            return Err(Error::Io);
        }
        let payload: &[u8] = vstd::slice::slice_subrange(bytes, 4, end);
        if bytes[end] != buf_checksum(payload) {
            return Err(Error::InvalidData(Malformed::Checksum));
        }
        if bytes[end + 1] != IEC_STOP {
            return Err(Error::InvalidData(Malformed::Stop));
        }
        let l: usize = config.link_address_len as usize;
        let o: usize = config.originator_address_len as usize;
        let a: usize = config.adsu_address_len as usize;
        if payload.len() < 4 + l {
            return Err(Error::Io);
        }
        let control: u8 = payload[0];
        let link_address: u32 = read_le(payload, 1, config.link_address_len);
        let type_byte: u8 = payload[1 + l];
        let count_byte: u8 = payload[2 + l];
        let cot_byte: u8 = payload[3 + l];
        let data_type: DataType = match DataType::try_from(type_byte) {
            Ok(t) => t,
            Err(_) => {
                return Err(Error::InvalidData(Malformed::DataType(type_byte)));
            },
        };
        let sequental: bool = count_byte & 0b1000_0000 != 0;
        let cot: COT = match COT::try_from(cot_byte & 0b0011_1111) {
            Ok(c) => c,
            Err(_) => {
                return Err(Error::InvalidData(Malformed::Cot(cot_byte)));
            },
        };
        let test: bool = cot_byte & 0b1000_0000 != 0;
        let negative: bool = cot_byte & 0b0100_0000 != 0;
        if payload.len() < 4 + l + o + a {
            return Err(Error::Io);
        }
        let originator: u32 = read_le(payload, 4 + l, config.originator_address_len);
        let adsu: u32 = read_le(payload, 4 + l + o, config.adsu_address_len);
        proof {
            lemma_masked(count_byte);
        }
        let iou: Vec<Iou> = match parse_objects(
            payload,
            4 + l + o + a,
            count_byte & 0b0111_1111,
            sequental,
            config.iou_address_len,
            data_type.size(),
        ) {
            Some(iou) => iou,
            None => {
                return Err(Error::Io);
            },
        };
        Ok(
            Self {
                prm: control & 0b0100_0000 != 0,
                fcb_acd: control & 0b0010_0000 != 0,
                fcv_dfc: control & 0b0001_0000 != 0,
                function_code: control & 0b0000_1111,
                link_address,
                data_type,
                test,
                negative,
                cot: Some(cot),
                originator: originator as u16,
                adsu: adsu as u16,
                iou,
                sequental,
                config,
            },
        )
    }

    fn read_fixed_length(bytes: &[u8], config: Config) -> (r: Result<Self, Error>)
        requires
            bytes@.len() >= 1,
        ensures
            match r {
                Ok(t) => spec_read_fixed(bytes@, config) == Ok::<Telegram101View, Error>(t@),
                Err(e) => spec_read_fixed(bytes@, config) == Err::<Telegram101View, Error>(e),
            },
    {
        proof {
            use_type_invariant(&config);
        }
        let l: usize = config.link_address_len as usize;
        if bytes.len() < 4 + l {
            return Err(Error::Io);
        }
        let control: u8 = bytes[1];
        let link_address: u32 = read_le(bytes, 2, config.link_address_len);
        let checksum: u8 = buf_checksum(vstd::slice::slice_subrange(bytes, 1, 2 + l));
        if checksum != bytes[2 + l] {
            return Err(Error::InvalidData(Malformed::Checksum));
        }
        if bytes[3 + l] != IEC_STOP {
            return Err(Error::InvalidData(Malformed::Stop));
        }
        Ok(
            Self {
                prm: control & 0b0100_0000 != 0,
                fcb_acd: control & 0b0010_0000 != 0,
                fcv_dfc: control & 0b0001_0000 != 0,
                function_code: control & 0b0000_1111,
                link_address,
                data_type: DataType::ASDU_TYPEUNDEF,
                test: false,
                negative: false,
                cot: None,
                originator: 0,
                adsu: 0,
                iou: Vec::new(),
                sequental: false,
                config,
            },
        )
    }

    /// Parses the telegram that the first bytes of `bytes` spell; what follows it is ignored.
    /// Bytes that end before the frame does are refused with `Error::Io`.
    pub fn read(bytes: &[u8], config: Config) -> (r: Result<Self, Error>)
        ensures
            match r {
                Ok(t) => spec_read(bytes@, config) == Ok::<Telegram101View, Error>(t@),
                Err(e) => spec_read(bytes@, config) == Err::<Telegram101View, Error>(e),
            },
    {
        if bytes.len() < 1 {
            return Err(Error::Io);
        }
        let header: u8 = bytes[0];
        if header == IEC_HEADER {
            Self::read_variable_length(bytes, config)
        } else if header == IEC_HEADER_FIXED {
            Self::read_fixed_length(bytes, config)
        } else {
            Err(Error::InvalidData(Malformed::Header))
        }
    }

    /// Tells a reader how many more bytes to fetch before `read` can judge the bytes read so
    /// far: zero once they hold a whole frame, or can only be refused.
    pub fn bytes_needed(bytes: &[u8], config: Config) -> (r: usize)
        ensures
            r == spec_bytes_needed(bytes@, config),
    {
        proof {
            use_type_invariant(&config);
        }
        let len: usize = bytes.len();
        if len < 1 {
            return 1;
        }
        if bytes[0] == IEC_HEADER {
            if len < 4 {
                return 4 - len;
            }
            let total: usize = 6 + bytes[1] as usize;
            if bytes[1] != bytes[2] || bytes[1] > 253 || bytes[3] != IEC_HEADER || len >= total {
                0
            } else {
                total - len
            }
        } else if bytes[0] == IEC_HEADER_FIXED {
            let total: usize = 4 + config.link_address_len as usize;
            if len < total {
                total - len
            } else {
                0
            }
        } else {
            0
        }
    }

    fn control_field(&self) -> (r: u8)
        ensures
            r == spec_control_field(self@),
    {
        flag(self.prm, 0b0100_0000) | flag(self.fcb_acd, 0b0010_0000) | flag(
            self.fcv_dfc,
            0b0001_0000,
        ) | (self.function_code & 0b0000_1111)
    }

    /// Serialises the telegram. A variable-length telegram with more than 127 information
    /// objects, or whose payload would be longer than 253 bytes, is refused, and no byte of it
    /// is produced.
    pub fn write(&self) -> (r: Result<Vec<u8>, Error>)
        ensures
            match r {
                Ok(b) => spec_write(self@) == Ok::<Seq<u8>, Error>(b@),
                Err(e) => spec_write(self@) == Err::<Seq<u8>, Error>(e),
            },
    {
        proof {
            use_type_invariant(&self.config);
        }
        let mut buf: Vec<u8> = Vec::new();
        let mut frame: Vec<u8> = Vec::new();
        match self.cot {
            Some(cot) => {
                // variable length
                let count: usize = self.iou.len();
                if count > 127 {
                    return Err(Error::InvalidData(Malformed::TooManyObjects));
                }
                let kind_size: usize = self.data_type.size();
                let address_len: usize = self.config.iou_address_len as usize;
                proof {
                    lemma_objects_len(
                        self.iou@,
                        self.sequental,
                        address_len as nat,
                        kind_size as nat,
                    );
                    assert(count * kind_size <= 127 * 12) by (nonlinear_arith)
                        requires
                            count <= 127,
                            kind_size <= 12,
                    ;
                    assert(count * (address_len + kind_size) <= 127 * 15) by (nonlinear_arith)
                        requires
                            count <= 127,
                            address_len + kind_size <= 15,
                    ;
                }
                let objects_len: usize = if self.sequental {
                    if count == 0 {
                        0
                    } else {
                        address_len + count * kind_size
                    }
                } else {
                    count * (address_len + kind_size)
                };
                let length: usize = 1 + self.config.link_address_len as usize + 3
                    + self.config.originator_address_len as usize
                    + self.config.adsu_address_len as usize + objects_len;
                if length > 253 {
                    return Err(Error::InvalidData(Malformed::TooLong));
                }
                buf.push(self.control_field());
                push_le(&mut buf, self.link_address, self.config.link_address_len);
                buf.push(self.data_type.code());
                buf.push((count as u8) | flag(self.sequental, 0b1000_0000));
                buf.push(
                    cot.code() | flag(self.negative, 0b0100_0000) | flag(self.test, 0b1000_0000),
                );
                push_le(&mut buf, self.originator as u32, self.config.originator_address_len);
                push_le(&mut buf, self.adsu as u32, self.config.adsu_address_len);
                proof {
                    assert(buf@ =~= spec_payload_head(self@));
                }
                push_objects(
                    &mut buf,
                    &self.iou,
                    self.sequental,
                    self.config.iou_address_len,
                    kind_size,
                );
                frame.push(IEC_HEADER);
                frame.push(length as u8);
                frame.push(length as u8);
                frame.push(IEC_HEADER);
            },
            None => {
                // fixed length
                buf.push(self.control_field());
                push_le(&mut buf, self.link_address, self.config.link_address_len);
                frame.push(IEC_HEADER_FIXED);
            },
        }
        let checksum: u8 = buf_checksum(buf.as_slice());
        frame.extend_from_slice(buf.as_slice());
        frame.push(checksum);
        frame.push(IEC_STOP);
        proof {
            assert(spec_write(self@) is Ok);
            assert(frame@ =~= spec_write(self@)->Ok_0);
        }
        Ok(frame)
    }
}

/// The control byte: PRM in bit 6, FCB/ACD in bit 5, FCV/DFC in bit 4, the function code in
/// bits 0 to 3.
pub open spec fn spec_control_field(v: Telegram101View) -> u8 {
    spec_flag(v.prm, 0x40) | spec_flag(v.fcb_acd, 0x20) | spec_flag(v.fcv_dfc, 0x10) | (
    v.function_code & 0x0f)
}

/// The bytes of a variable-length telegram that stand before its object list.
pub open spec fn spec_payload_head(v: Telegram101View) -> Seq<u8> {
    seq![spec_control_field(v)] + spec_le_bytes(v.link_address, v.config.spec_link_address_len())
        + seq![
        v.data_type.spec_code(),
        spec_count_byte(v.iou.len(), v.sequental),
        spec_cot_byte(v.cot->Some_0, v.test, v.negative),
    ] + spec_le_bytes(v.originator as u32, v.config.spec_originator_address_len())
        + spec_le_bytes(v.adsu as u32, v.config.spec_adsu_address_len())
}

/// The payload of a variable-length telegram: what its length byte counts and its checksum
/// covers.
pub open spec fn spec_payload(v: Telegram101View) -> Seq<u8> {
    spec_payload_head(v) + spec_objects(
        v.iou,
        v.sequental,
        v.config.spec_iou_address_len(),
        v.data_type.spec_size(),
    )
}

/// The bytes of a fixed-length telegram that its checksum covers: control byte and link
/// address.
pub open spec fn spec_fixed_body(v: Telegram101View) -> Seq<u8> {
    seq![spec_control_field(v)] + spec_le_bytes(v.link_address, v.config.spec_link_address_len())
}

/// What serialising a telegram gives: the frame's bytes, or the reason for which the telegram
/// cannot be sent.
pub open spec fn spec_write(v: Telegram101View) -> Result<Seq<u8>, Error> {
    if v.cot is Some {
        let payload = spec_payload(v);
        if v.iou.len() > 127 {
            Err(Error::InvalidData(Malformed::TooManyObjects))
        } else if payload.len() > 253 {
            Err(Error::InvalidData(Malformed::TooLong))
        } else {
            Ok(
                seq![IEC_HEADER, payload.len() as u8, payload.len() as u8, IEC_HEADER] + payload
                    + seq![spec_checksum(payload), IEC_STOP],
            )
        }
    } else {
        let body = spec_fixed_body(v);
        Ok(seq![IEC_HEADER_FIXED] + body + seq![spec_checksum(body), IEC_STOP])
    }
}

/// What the payload of a variable-length telegram parses to.
pub open spec fn spec_read_payload(p: Seq<u8>, config: Config) -> Result<Telegram101View, Error> {
    let l = config.spec_link_address_len() as int;
    let o = config.spec_originator_address_len() as int;
    let a = config.spec_adsu_address_len() as int;
    if p.len() < 4 + l {
        Err(Error::Io)
    } else {
        match DataType::try_from_spec(p[1 + l]) {
            Err(_) => Err(Error::InvalidData(Malformed::DataType(p[1 + l]))),
            Ok(data_type) => match COT::try_from_spec(p[3 + l] & 0x3f) {
                Err(_) => Err(Error::InvalidData(Malformed::Cot(p[3 + l]))),
                Ok(cot) => if p.len() < 4 + l + o + a {
                    Err(Error::Io)
                } else {
                    match spec_parse_objects(
                        p.skip(4 + l + o + a),
                        (p[2 + l] & 0x7f) as nat,
                        p[2 + l] & 0x80 != 0,
                        config.spec_iou_address_len(),
                        data_type.spec_size(),
                    ) {
                        None => Err(Error::Io),
                        Some(iou) => Ok(
                            Telegram101View {
                                prm: p[0] & 0x40 != 0,
                                fcb_acd: p[0] & 0x20 != 0,
                                fcv_dfc: p[0] & 0x10 != 0,
                                function_code: p[0] & 0x0f,
                                link_address: spec_le_value(p.subrange(1, 1 + l)),
                                data_type,
                                test: p[3 + l] & 0x80 != 0,
                                negative: p[3 + l] & 0x40 != 0,
                                cot: Some(cot),
                                originator: spec_le_value(p.subrange(4 + l, 4 + l + o)) as u16,
                                adsu: spec_le_value(p.subrange(4 + l + o, 4 + l + o + a)) as u16,
                                iou,
                                sequental: p[2 + l] & 0x80 != 0,
                                config,
                            },
                        ),
                    }
                },
            },
        }
    }
}

/// What a byte sequence that starts with the variable-length marker parses to.
pub open spec fn spec_read_variable(b: Seq<u8>, config: Config) -> Result<Telegram101View, Error> {
    if b.len() < 4 {
        Err(Error::Io)
    } else if b[1] != b[2] {
        Err(Error::InvalidData(Malformed::Length))
    } else if b[1] > 253 {
        Err(Error::InvalidData(Malformed::TooLong))
    } else if b[3] != IEC_HEADER {
        Err(Error::InvalidData(Malformed::Header))
    } else if b.len() < 4 + b[1] + 2 {
        Err(Error::Io)
    } else if b[4 + b[1]] != spec_checksum(b.subrange(4, 4 + b[1])) {
        Err(Error::InvalidData(Malformed::Checksum))
    } else if b[5 + b[1]] != IEC_STOP {
        Err(Error::InvalidData(Malformed::Stop))
    } else {
        spec_read_payload(b.subrange(4, 4 + b[1]), config)
    }
}

/// What a byte sequence that starts with the fixed-length marker parses to.
pub open spec fn spec_read_fixed(b: Seq<u8>, config: Config) -> Result<Telegram101View, Error> {
    let l = config.spec_link_address_len() as int;
    if b.len() < 4 + l {
        Err(Error::Io)
    } else if b[2 + l] != spec_checksum(b.subrange(1, 2 + l)) {
        Err(Error::InvalidData(Malformed::Checksum))
    } else if b[3 + l] != IEC_STOP {
        Err(Error::InvalidData(Malformed::Stop))
    } else {
        Ok(
            Telegram101View {
                prm: b[1] & 0x40 != 0,
                fcb_acd: b[1] & 0x20 != 0,
                fcv_dfc: b[1] & 0x10 != 0,
                function_code: b[1] & 0x0f,
                link_address: spec_le_value(b.subrange(2, 2 + l)),
                data_type: DataType::ASDU_TYPEUNDEF,
                test: false,
                negative: false,
                cot: None,
                originator: 0,
                adsu: 0,
                iou: Seq::empty(),
                sequental: false,
                config,
            },
        )
    }
}

/// What a byte sequence parses to: the telegram that its first bytes spell, whatever follows
/// them, or the reason for which they spell none.
pub open spec fn spec_read(b: Seq<u8>, config: Config) -> Result<Telegram101View, Error> {
    if b.len() < 1 {
        Err(Error::Io)
    } else if b[0] == IEC_HEADER {
        spec_read_variable(b, config)
    } else if b[0] == IEC_HEADER_FIXED {
        spec_read_fixed(b, config)
    } else {
        Err(Error::InvalidData(Malformed::Header))
    }
}

/// How many more bytes a reader has to fetch before the bytes read so far can be parsed: zero
/// once they hold a whole frame or can only be refused.
pub open spec fn spec_bytes_needed(b: Seq<u8>, config: Config) -> nat {
    if b.len() < 1 {
        1
    } else if b[0] == IEC_HEADER {
        if b.len() < 4 {
            (4 - b.len()) as nat
        } else if b[1] != b[2] || b[1] > 253 || b[3] != IEC_HEADER || b.len() >= 6 + b[1] {
            0
        } else {
            (6 + b[1] - b.len()) as nat
        }
    } else if b[0] == IEC_HEADER_FIXED {
        if b.len() < 4 + config.spec_link_address_len() {
            (4 + config.spec_link_address_len() - b.len()) as nat
        } else {
            0
        }
    } else {
        0
    }
}

/// Whether a telegram is one that parsing can give: the function code fits in four bits, every
/// address fits in its configured width and the object list is canonical; a fixed-length
/// telegram carries nothing but its control byte and link address.
pub open spec fn spec_canonical(v: Telegram101View) -> bool {
    &&& v.function_code < 16
    &&& v.link_address < spec_width_limit(v.config.spec_link_address_len())
    &&& match v.cot {
        Some(_) => {
            &&& v.originator < spec_width_limit(v.config.spec_originator_address_len())
            &&& v.adsu < spec_width_limit(v.config.spec_adsu_address_len())
            &&& spec_objects_canonical(
                v.iou,
                v.sequental,
                v.config.spec_iou_address_len(),
                v.data_type.spec_size(),
            )
        },
        None => {
            &&& v.data_type == DataType::ASDU_TYPEUNDEF
            &&& !v.test
            &&& !v.negative
            &&& v.originator == 0
            &&& v.adsu == 0
            &&& v.iou =~= Seq::<Iou>::empty()
            &&& !v.sequental
        },
    }
}

proof fn lemma_control_bits(prm: bool, fcb_acd: bool, fcv_dfc: bool, function_code: u8)
    by (bit_vector)
    requires
        function_code < 16,
    ensures
        (((if prm { 0x40u8 } else { 0u8 }) | (if fcb_acd { 0x20u8 } else { 0u8 }) | (if fcv_dfc {
            0x10u8
        } else {
            0u8
        }) | (function_code & 0x0f)) & 0x40 != 0) == prm,
        (((if prm { 0x40u8 } else { 0u8 }) | (if fcb_acd { 0x20u8 } else { 0u8 }) | (if fcv_dfc {
            0x10u8
        } else {
            0u8
        }) | (function_code & 0x0f)) & 0x20 != 0) == fcb_acd,
        (((if prm { 0x40u8 } else { 0u8 }) | (if fcb_acd { 0x20u8 } else { 0u8 }) | (if fcv_dfc {
            0x10u8
        } else {
            0u8
        }) | (function_code & 0x0f)) & 0x10 != 0) == fcv_dfc,
        (((if prm { 0x40u8 } else { 0u8 }) | (if fcb_acd { 0x20u8 } else { 0u8 }) | (if fcv_dfc {
            0x10u8
        } else {
            0u8
        }) | (function_code & 0x0f)) & 0x0f) == function_code,
{
}

/// The control byte gives back the three control bits and a function code below 16.
pub proof fn lemma_control_field(v: Telegram101View)
    requires
        v.function_code < 16,
    ensures
        (spec_control_field(v) & 0x40 != 0) == v.prm,
        (spec_control_field(v) & 0x20 != 0) == v.fcb_acd,
        (spec_control_field(v) & 0x10 != 0) == v.fcv_dfc,
        spec_control_field(v) & 0x0f == v.function_code,
{
    lemma_control_bits(v.prm, v.fcb_acd, v.fcv_dfc, v.function_code);
}

proof fn lemma_payload_round_trip(v: Telegram101View)
    requires
        v.config.valid(),
        spec_canonical(v),
        v.cot is Some,
        v.iou.len() <= 127,
    ensures
        spec_read_payload(spec_payload(v), v.config) == Ok::<Telegram101View, Error>(v),
{
    let ln = v.config.spec_link_address_len();
    let on = v.config.spec_originator_address_len();
    let an = v.config.spec_adsu_address_len();
    let l = ln as int;
    let o = on as int;
    let a = an as int;
    let i = v.config.spec_iou_address_len();
    let size = v.data_type.spec_size();
    let head = spec_payload_head(v);
    let objs = spec_objects(v.iou, v.sequental, i, size);
    let p = spec_payload(v);
    let cot = v.cot->Some_0;
    assert(head.len() == 4 + l + o + a);
    assert(p[0] == spec_control_field(v));
    assert(p[1 + l] == v.data_type.spec_code());
    assert(p[2 + l] == spec_count_byte(v.iou.len(), v.sequental));
    assert(p[3 + l] == spec_cot_byte(cot, v.test, v.negative));
    assert(p.subrange(1, 1 + l) =~= spec_le_bytes(v.link_address, ln));
    assert(p.subrange(4 + l, 4 + l + o) =~= spec_le_bytes(v.originator as u32, on));
    assert(p.subrange(4 + l + o, 4 + l + o + a) =~= spec_le_bytes(v.adsu as u32, an));
    assert(p.skip(4 + l + o + a) =~= objs + Seq::<u8>::empty());
    lemma_control_field(v);
    lemma_le_round_trip(v.link_address, ln);
    lemma_le_round_trip(v.originator as u32, on);
    lemma_le_round_trip(v.adsu as u32, an);
    v.data_type.lemma_code_round_trip();
    cot.lemma_code_round_trip();
    lemma_cot_byte(cot, v.test, v.negative);
    lemma_count_byte(v.iou.len(), v.sequental);
    lemma_objects_round_trip(v.iou, v.sequental, i, size, Seq::empty());
}

/// A canonical telegram that can be serialised is parsed back from its bytes, whatever follows
/// them, under the configuration it was written with.
pub proof fn lemma_write_read_round_trip(v: Telegram101View, rest: Seq<u8>)
    requires
        v.config.valid(),
        spec_canonical(v),
        spec_write(v) is Ok,
    ensures
        spec_read(spec_write(v)->Ok_0 + rest, v.config) == Ok::<Telegram101View, Error>(v),
{
    let frame = spec_write(v)->Ok_0;
    let b = frame + rest;
    if v.cot is Some {
        let p = spec_payload(v);
        let n = p.len() as int;
        assert(b[0] == IEC_HEADER && b[1] == n && b[2] == n && b[3] == IEC_HEADER);
        assert(b.subrange(4, 4 + n) =~= p);
        assert(b[4 + n] == spec_checksum(p));
        assert(b[5 + n] == IEC_STOP);
        lemma_payload_round_trip(v);
    } else {
        let ln = v.config.spec_link_address_len();
        let l = ln as int;
        let body = spec_fixed_body(v);
        assert(b[0] == IEC_HEADER_FIXED);
        assert(b.subrange(1, 2 + l) =~= body);
        assert(b.subrange(2, 2 + l) =~= spec_le_bytes(v.link_address, ln));
        assert(b[1] == spec_control_field(v));
        assert(b[2 + l] == spec_checksum(body));
        assert(b[3 + l] == IEC_STOP);
        lemma_control_field(v);
        lemma_le_round_trip(v.link_address, ln);
    }
}

/// Every telegram that parsing gives is canonical, so parsing, serialising and parsing again
/// gives the same telegram.
pub proof fn lemma_read_gives_canonical(b: Seq<u8>, config: Config)
    requires
        config.valid(),
        spec_read(b, config) is Ok,
    ensures
        spec_canonical(spec_read(b, config)->Ok_0),
        spec_read(b, config)->Ok_0.config == config,
{
    let v = spec_read(b, config)->Ok_0;
    let l = config.spec_link_address_len() as int;
    let o = config.spec_originator_address_len() as int;
    let a = config.spec_adsu_address_len() as int;
    if b[0] == IEC_HEADER {
        let p = b.subrange(4, 4 + b[1]);
        let data_type = DataType::try_from_spec(p[1 + l])->Ok_0;
        lemma_masked(p[0]);
        lemma_masked(p[2 + l]);
        lemma_le_value_bound(p.subrange(1, 1 + l));
        lemma_le_value_bound(p.subrange(4 + l, 4 + l + o));
        lemma_le_value_bound(p.subrange(4 + l + o, 4 + l + o + a));
        lemma_parsed_objects_canonical(
            p.skip(4 + l + o + a),
            (p[2 + l] & 0x7f) as nat,
            p[2 + l] & 0x80 != 0,
            config.spec_iou_address_len(),
            data_type.spec_size(),
        );
    } else {
        lemma_masked(b[1]);
        lemma_le_value_bound(b.subrange(2, 2 + l));
    }
}

/// While a frame that was written is still arriving, a reader is asked for more bytes, never
/// for more than the frame has left, and for none once the frame is whole.
pub proof fn lemma_bytes_needed_within_frame(v: Telegram101View, k: int)
    requires
        v.config.valid(),
        spec_write(v) is Ok,
        0 <= k <= spec_write(v)->Ok_0.len(),
    ensures
        k < spec_write(v)->Ok_0.len() ==> 0 < spec_bytes_needed(
            spec_write(v)->Ok_0.take(k),
            v.config,
        ) <= spec_write(v)->Ok_0.len() - k,
        k == spec_write(v)->Ok_0.len() ==> spec_bytes_needed(spec_write(v)->Ok_0, v.config) == 0,
{
    let frame = spec_write(v)->Ok_0;
    let b = frame.take(k);
    if v.cot is Some {
        let n = spec_payload(v).len();
        assert(frame.len() == n + 6);
        assert(frame[0] == IEC_HEADER && frame[1] == n && frame[2] == n && frame[3] == IEC_HEADER);
    } else {
        assert(frame.len() == 4 + v.config.spec_link_address_len());
        assert(frame[0] == IEC_HEADER_FIXED);
    }
    if k >= 1 {
        assert(b[0] == frame[0]);
    }
    if k >= 4 {
        assert(b[1] == frame[1] && b[2] == frame[2] && b[3] == frame[3]);
    }
    if k == frame.len() {
        assert(b =~= frame);
    }
}

/// Parsing never refuses a cause of transmission: the six bits of the cause byte always name
/// one.
pub proof fn lemma_read_accepts_every_cause(b: Seq<u8>, config: Config)
    ensures
        !(spec_read(b, config) matches Err(Error::InvalidData(Malformed::Cot(_)))),
{
    let l = config.spec_link_address_len() as int;
    if b.len() >= 4 && b.len() >= 6 + b[1] {
        let p = b.subrange(4, 4 + b[1]);
        if p.len() >= 4 + l {
            lemma_masked(p[3 + l]);
            COT::lemma_try_from_total(p[3 + l] & 0x3f);
        }
    }
}

/// A telegram whose payload would be longer than 253 bytes is never serialised.
pub proof fn lemma_long_payload_refused(v: Telegram101View)
    requires
        v.cot is Some,
        spec_payload(v).len() > 253,
    ensures
        spec_write(v) is Err,
{
}

} // verus!
