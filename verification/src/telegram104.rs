use crate::types::datatype::DataType;
use crate::types::{DataBuffer, Iou, COT};
use crate::wire::{
    flag, lemma_cot_byte, lemma_count_byte, lemma_le_round_trip, lemma_masked, lemma_objects_len,
    lemma_objects_round_trip, lemma_parsed_objects_canonical, parse_objects, push_le, push_objects, read_le, spec_byte_or_zero,
    spec_cot_byte, spec_count_byte, spec_flag, spec_le_bytes, spec_le_value, spec_objects,
    spec_objects_canonical, spec_objects_len, spec_parse_objects,
};
use crate::{Error, Malformed};
use vstd::prelude::*;
use vstd::std_specs::convert::TryFromSpec;

verus! {

/// Start marker of every frame
pub const IEC_HEADER: u8 = 0x68;

/// The largest value of a sequence counter
pub const FRAME_COUNTER_MAX: u16 = 32767;

/// The counter value that follows `c`: back to zero after 32767.
pub open spec fn spec_next_count(c: u16) -> u16 {
    if c >= FRAME_COUNTER_MAX {
        0
    } else {
        (c + 1) as u16
    }
}

/// Chat sequence counter: the send (TX) and receive (RX) counters of one connection, each
/// between 0 and 32767. Where several threads share one, they serialise their access to it.
#[derive(Debug)]
pub struct ChatSequenceCounter {
    tx: u16,
    rx: u16,
}

impl Default for ChatSequenceCounter {
    fn default() -> (r: Self)
        ensures
            r.spec_tx() == 0,
            r.spec_rx() == 0,
    {
        ChatSequenceCounter { tx: 0, rx: 0 }
    }
}

impl ChatSequenceCounter {
    /// The send counter
    pub closed spec fn spec_tx(self) -> u16 {
        self.tx
    }

    /// The receive counter
    pub closed spec fn spec_rx(self) -> u16 {
        self.rx
    }

    /// Both counters fit in fifteen bits. Every counter satisfies this.
    #[verifier::type_invariant]
    pub open spec fn valid(self) -> bool {
        self.spec_tx() <= FRAME_COUNTER_MAX && self.spec_rx() <= FRAME_COUNTER_MAX
    }

    /// Creates a new TX/RX chat sequence
    pub fn new() -> (r: Self)
        ensures
            r.spec_tx() == 0,
            r.spec_rx() == 0,
    {
        ChatSequenceCounter { tx: 0, rx: 0 }
    }

    /// Manually increments the RX counter. Returns the value before the call plus one; the
    /// counter itself goes back to zero after 32767.
    pub fn increment_rx(&mut self) -> (r: u16)
        ensures
            r == old(self).spec_rx() + 1,
            final(self).spec_rx() == spec_next_count(old(self).spec_rx()),
            final(self).spec_tx() == old(self).spec_tx(),
    {
        proof {
            use_type_invariant(&*self);
        }
        let rx: u16 = self.rx;
        if rx >= FRAME_COUNTER_MAX {
            self.rx = 0;
        } else {
            self.rx = rx + 1;
        }
        rx + 1
    }

    /// Manually increments the TX counter. Returns the value before the call plus one; the
    /// counter itself goes back to zero after 32767.
    pub fn increment_tx(&mut self) -> (r: u16)
        ensures
            r == old(self).spec_tx() + 1,
            final(self).spec_tx() == spec_next_count(old(self).spec_tx()),
            final(self).spec_rx() == old(self).spec_rx(),
    {
        proof {
            use_type_invariant(&*self);
        }
        let tx: u16 = self.tx;
        if tx >= FRAME_COUNTER_MAX {
            self.tx = 0;
        } else {
            self.tx = tx + 1;
        }
        tx + 1
    }

    /// Returns the current TX counter value
    pub fn current_tx(&self) -> (r: u16)
        ensures
            r == self.spec_tx(),
            r <= FRAME_COUNTER_MAX,
    {
        proof {
            use_type_invariant(self);
        }
        self.tx
    }

    /// Returns the current RX counter value
    pub fn current_rx(&self) -> (r: u16)
        ensures
            r == self.spec_rx(),
            r <= FRAME_COUNTER_MAX,
    {
        proof {
            use_type_invariant(self);
        }
        self.rx
    }

    /// Resets the TX and RX counters to 0
    pub fn reset(&mut self)
        ensures
            final(self).spec_tx() == 0,
            final(self).spec_rx() == 0,
    {
        proof {
            use_type_invariant(&*self);
        }
        self.tx = 0;
        self.rx = 0;
    }
}

/// What an S-frame holds.
pub struct Telegram104_SView {
    /// Receive sequence number
    pub recv_sn: u16,
}

/// What a U-frame holds.
pub struct Telegram104_UView {
    /// Test frame
    pub test: bool,
    /// Start data transfer
    pub start_dt: bool,
    /// Stop data transfer
    pub stop_dt: bool,
    /// Confirmation rather than activation
    pub con: bool,
}

/// What an I-frame holds.
pub struct Telegram104_IView {
    /// Send sequence number
    pub send_sn: u16,
    /// Receive sequence number
    pub recv_sn: u16,
    /// Type identifier
    pub data_type: DataType,
    /// Test bit
    pub test: bool,
    /// Negative confirmation bit
    pub negative: bool,
    /// Cause of transmission
    pub cot: COT,
    /// Originator address
    pub originator: u8,
    /// Application (ADSU) address
    pub adsu: u16,
    /// Information objects
    pub iou: Seq<Iou>,
    /// Whether the objects are addressed sequentially
    pub sequental: bool,
}

/// What a telegram holds.
pub enum Telegram104View {
    /// U-frame
    U(Telegram104_UView),
    /// S-frame
    S(Telegram104_SView),
    /// I-frame
    I(Telegram104_IView),
}

/// IEC 60870-5-104 telegram
#[derive(Debug, Clone)]
pub enum Telegram104 {
    /// U-frame
    U(Telegram104_U),
    /// S-frame
    S(Telegram104_S),
    /// I-frame
    I(Telegram104_I),
}

/// S-frame telegram
#[derive(Debug, Clone, Copy)]
pub struct Telegram104_S {
    recv_sn: u16,
}

/// U-frame telegram
#[derive(Debug, Clone, Copy)]
pub struct Telegram104_U {
    test: bool,
    start_dt: bool,
    stop_dt: bool,
    con: bool,
}

/// I-frame telegram
#[derive(Debug, Clone)]
pub struct Telegram104_I {
    send_sn: u16,
    recv_sn: u16,
    data_type: DataType,
    test: bool,
    negative: bool,
    cot: COT,
    originator: u8,
    adsu: u16,
    iou: Vec<Iou>,
    sequental: bool,
}

impl View for Telegram104_S {
    type V = Telegram104_SView;

    closed spec fn view(&self) -> Telegram104_SView {
        Telegram104_SView { recv_sn: self.recv_sn }
    }
}

impl View for Telegram104_U {
    type V = Telegram104_UView;

    closed spec fn view(&self) -> Telegram104_UView {
        Telegram104_UView {
            test: self.test,
            start_dt: self.start_dt,
            stop_dt: self.stop_dt,
            con: self.con,
        }
    }
}

impl View for Telegram104_I {
    type V = Telegram104_IView;

    closed spec fn view(&self) -> Telegram104_IView {
        Telegram104_IView {
            send_sn: self.send_sn,
            recv_sn: self.recv_sn,
            data_type: self.data_type,
            test: self.test,
            negative: self.negative,
            cot: self.cot,
            originator: self.originator,
            adsu: self.adsu,
            iou: self.iou@,
            sequental: self.sequental,
        }
    }
}

impl View for Telegram104 {
    type V = Telegram104View;

    open spec fn view(&self) -> Telegram104View {
        match self {
            Telegram104::U(u) => Telegram104View::U(u@),
            Telegram104::S(s) => Telegram104View::S(s@),
            Telegram104::I(i) => Telegram104View::I(i@),
        }
    }
}

/// The first of the two bytes of a sequence number: its low seven bits in bits 1 to 7.
pub open spec fn spec_sn_low(sn: u16) -> u8 {
    ((sn & 0x7f) << 1) as u8
}

/// The second of the two bytes of a sequence number: its bits from 7 up.
pub open spec fn spec_sn_high(sn: u16) -> u8 {
    (sn >> 7) as u8
}

/// The sequence number that two control bytes spell: seven bits from the first, eight from the
/// second.
pub open spec fn spec_sn(b0: u8, b1: u8) -> u16 {
    ((b0 >> 1) as u16) | ((b1 as u16) << 7)
}

/// The control byte of a U-frame: a confirmation sets the high bit of each function's pair, an
/// activation the low bit; test in bits 6 and 7, stop in bits 4 and 5, start in bits 2 and 3.
pub open spec fn spec_u_control(u: Telegram104_UView) -> u8 {
    if u.con {
        0b11u8 | spec_flag(u.test, 0x80) | spec_flag(u.stop_dt, 0x20) | spec_flag(u.start_dt, 0x08)
    } else {
        0b11u8 | spec_flag(u.test, 0x40) | spec_flag(u.stop_dt, 0x10) | spec_flag(u.start_dt, 0x04)
    }
}

/// The U-frame that a control byte spells.
pub open spec fn spec_u_of_control(c: u8) -> Telegram104_UView {
    let test = c & 0xC0 != 0;
    let stop_dt = c & 0x30 != 0;
    let start_dt = c & 0x0C != 0;
    Telegram104_UView {
        test,
        start_dt,
        stop_dt,
        con: (test && c & 0x80 != 0) || (stop_dt && c & 0x20 != 0) || (start_dt && c & 0x08
            != 0),
    }
}

/// A U-frame confirms only a function that it names.
pub open spec fn spec_u_valid(u: Telegram104_UView) -> bool {
    u.con ==> (u.test || u.stop_dt || u.start_dt)
}

/// The length byte of an I-frame.
pub open spec fn spec_i_length(v: Telegram104_IView) -> nat {
    4 + (if v.iou.len() > 0 {
        6nat
    } else {
        0nat
    }) + (if v.sequental {
        3 + v.iou.len() * v.data_type.spec_size()
    } else {
        v.iou.len() * (3 + v.data_type.spec_size())
    })
}

/// The bytes of an I-frame that follow its four control bytes: none where it has no objects.
pub open spec fn spec_i_body(v: Telegram104_IView) -> Seq<u8> {
    if v.iou.len() == 0 {
        Seq::<u8>::empty()
    } else {
        seq![
            v.data_type.spec_code(),
            spec_count_byte(v.iou.len(), v.sequental),
            spec_cot_byte(v.cot, v.test, v.negative),
            v.originator,
        ] + spec_le_bytes(v.adsu as u32, 2) + spec_objects(
            v.iou,
            v.sequental,
            3,
            v.data_type.spec_size(),
        )
    }
}

/// What serialising an I-frame gives.
pub open spec fn spec_write_i(v: Telegram104_IView) -> Result<Seq<u8>, Error> {
    if v.send_sn > FRAME_COUNTER_MAX {
        Err(Error::InvalidData(Malformed::SendSequence))
    } else if v.recv_sn > FRAME_COUNTER_MAX {
        Err(Error::InvalidData(Malformed::ReceiveSequence))
    } else if v.iou.len() > 255 {
        Err(Error::InvalidData(Malformed::TooManyObjects))
    } else if spec_i_length(v) > 253 {
        Err(Error::InvalidData(Malformed::TooLong))
    } else {
        Ok(
            seq![
                IEC_HEADER,
                spec_i_length(v) as u8,
                spec_sn_low(v.send_sn),
                spec_sn_high(v.send_sn),
                spec_sn_low(v.recv_sn),
                spec_sn_high(v.recv_sn),
            ] + spec_i_body(v),
        )
    }
}

/// What serialising a telegram gives: the frame's bytes, or the reason for which the telegram
/// cannot be sent.
pub open spec fn spec_write(t: Telegram104View) -> Result<Seq<u8>, Error> {
    match t {
        Telegram104View::U(u) => Ok(seq![IEC_HEADER, 4, spec_u_control(u), 0, 0, 0]),
        Telegram104View::S(s) => Ok(
            seq![IEC_HEADER, 4, 0b01, 0, spec_sn_low(s.recv_sn), spec_sn_high(s.recv_sn)],
        ),
        Telegram104View::I(i) => spec_write_i(i),
    }
}

/// A frame's content laid out in a buffer of 253 bytes, zero past its end.
pub open spec fn spec_padded(p: Seq<u8>) -> Seq<u8> {
    Seq::new(253, |i: int| spec_byte_or_zero(p, i))
}

/// What the content of an I-frame, laid out in 253 bytes, parses to.
pub open spec fn spec_read_i(p: Seq<u8>) -> Result<Telegram104_IView, Error> {
    if p[0] & 1 != 0 {
        Err(Error::InvalidData(Malformed::ControlField))
    } else if spec_sn(p[0], p[1]) > 32768 {
        Err(Error::InvalidData(Malformed::SendSequence))
    } else if spec_sn(p[2], p[3]) > 32768 {
        Err(Error::InvalidData(Malformed::ReceiveSequence))
    } else {
        match DataType::try_from_spec(p[4]) {
            Err(_) => Err(Error::InvalidData(Malformed::DataType(p[4]))),
            Ok(data_type) => match COT::try_from_spec(p[6] & 0x3f) {
                Err(_) => Err(Error::InvalidData(Malformed::Cot(p[6]))),
                Ok(cot) => match spec_parse_objects(
                    p.skip(10),
                    (p[5] & 0x7f) as nat,
                    p[5] & 0x80 != 0,
                    3,
                    data_type.spec_size(),
                ) {
                    None => Err(Error::Io),
                    Some(iou) => Ok(
                        Telegram104_IView {
                            send_sn: spec_sn(p[0], p[1]),
                            recv_sn: spec_sn(p[2], p[3]),
                            data_type,
                            test: p[6] & 0x80 != 0,
                            negative: p[6] & 0x40 != 0,
                            cot,
                            originator: p[7],
                            adsu: spec_le_value(p.subrange(8, 10)) as u16,
                            iou,
                            sequental: p[5] & 0x80 != 0,
                        },
                    ),
                },
            },
        }
    }
}

/// What a byte sequence parses to: the telegram that its first bytes spell, whatever follows
/// them, or the reason for which they spell none.
pub open spec fn spec_read(b: Seq<u8>) -> Result<Telegram104View, Error> {
    if b.len() < 2 {
        Err(Error::Io)
    } else if b[0] != IEC_HEADER {
        Err(Error::InvalidData(Malformed::Header))
    } else if b[1] > 253 {
        Err(Error::InvalidData(Malformed::TooLong))
    } else if b.len() < 2 + b[1] {
        Err(Error::Io)
    } else if b[1] < 4 {
        Err(Error::InvalidData(Malformed::TooShort))
    } else if b[1] == 4 {
        if b[2] & 0b11 == 0b01 {
            if b[4] & 1 != 0 {
                Err(Error::InvalidData(Malformed::ControlField))
            } else {
                Ok(Telegram104View::S(Telegram104_SView { recv_sn: spec_sn(b[4], b[5]) }))
            }
        } else if b[2] & 0b11 == 0b11 {
            Ok(Telegram104View::U(spec_u_of_control(b[2])))
        } else {
            Err(Error::InvalidData(Malformed::ControlField))
        }
    } else {
        match spec_read_i(spec_padded(b.subrange(2, 2 + b[1]))) {
            Ok(i) => Ok(Telegram104View::I(i)),
            Err(e) => Err(e),
        }
    }
}

/// How many more bytes a reader has to fetch before the bytes read so far can be parsed: zero
/// once they hold a whole frame or can only be refused.
pub open spec fn spec_bytes_needed(b: Seq<u8>) -> nat {
    if b.len() < 2 {
        (2 - b.len()) as nat
    } else if b[0] != IEC_HEADER || b[1] > 253 || b.len() >= 2 + b[1] {
        0
    } else {
        (2 + b[1] - b.len()) as nat
    }
}

proof fn lemma_sn_bits(sn: u16)
    by (bit_vector)
    requires
        sn <= 32767,
    ensures
        (((((sn & 0x7f) << 1) as u8) >> 1) as u16) | ((((sn >> 7) as u8) as u16) << 7) == sn,
        (((sn & 0x7f) << 1) as u8) & 1 == 0,
        (sn & 0x7f) << 1 < 256,
        sn >> 7 < 256,
{
}

proof fn lemma_sn_range(b0: u8, b1: u8)
    by (bit_vector)
    ensures
        ((b0 >> 1) as u16) | ((b1 as u16) << 7) <= 32767,
{
}

proof fn lemma_u_bits(test: bool, stop_dt: bool, start_dt: bool)
    by (bit_vector)
    ensures
        ({
            let c = 0b11u8 | spec_flag(test, 0x80) | spec_flag(stop_dt, 0x20) | spec_flag(
                start_dt,
                0x08,
            );
            &&& c & 0b11 == 0b11
            &&& (c & 0xC0 != 0) == test
            &&& (c & 0x30 != 0) == stop_dt
            &&& (c & 0x0C != 0) == start_dt
            &&& (c & 0x80 != 0) == test
            &&& (c & 0x20 != 0) == stop_dt
            &&& (c & 0x08 != 0) == start_dt
        }),
        ({
            let c = 0b11u8 | spec_flag(test, 0x40) | spec_flag(stop_dt, 0x10) | spec_flag(
                start_dt,
                0x04,
            );
            &&& c & 0b11 == 0b11
            &&& (c & 0xC0 != 0) == test
            &&& (c & 0x30 != 0) == stop_dt
            &&& (c & 0x0C != 0) == start_dt
            &&& c & 0x80 == 0
            &&& c & 0x20 == 0
            &&& c & 0x08 == 0
        }),
        0b01u8 & 0b11 == 0b01,
{
}

/// A sequence number below 32768 is read back from its two control bytes, and the first of
/// them has bit 0 clear.
pub proof fn lemma_sn_round_trip(sn: u16)
    requires
        sn <= FRAME_COUNTER_MAX,
    ensures
        spec_sn(spec_sn_low(sn), spec_sn_high(sn)) == sn,
        spec_sn_low(sn) & 1 == 0,
{
    lemma_sn_bits(sn);
}

/// Two control bytes never spell a sequence number above 32767.
pub proof fn lemma_sn_bound(b0: u8, b1: u8)
    ensures
        spec_sn(b0, b1) <= FRAME_COUNTER_MAX,
{
    lemma_sn_range(b0, b1);
}

/// A U-frame that confirms only a function it names is read back from its control byte, whose
/// two low bits are set.
pub proof fn lemma_u_control_round_trip(u: Telegram104_UView)
    requires
        spec_u_valid(u),
    ensures
        spec_u_of_control(spec_u_control(u)) == u,
        spec_u_control(u) & 0b11 == 0b11,
{
    lemma_u_bits(u.test, u.stop_dt, u.start_dt);
}

/// Every control byte spells a U-frame that confirms only a function it names.
pub proof fn lemma_u_of_control_valid(c: u8)
    ensures
        spec_u_valid(spec_u_of_control(c)),
{
}

impl Telegram104 {
    /// Applies the counter values to the outgoing telegram send/receive sequence numbers and
    /// increments the send sequence number if required: an I-frame takes both counters and
    /// advances the send counter, an S-frame takes the receive counter, a U-frame nothing.
    pub fn chat_sequence_apply_outgoing(&mut self, counter: &mut ChatSequenceCounter)
        ensures
            match old(self)@ {
                Telegram104View::U(u) => final(self)@ == old(self)@ && final(counter).spec_tx()
                    == old(counter).spec_tx(),
                Telegram104View::S(s) => final(self)@ == Telegram104View::S(
                    Telegram104_SView { recv_sn: old(counter).spec_rx() },
                ) && final(counter).spec_tx() == old(counter).spec_tx(),
                Telegram104View::I(i) => final(self)@ == Telegram104View::I(
                    Telegram104_IView {
                        send_sn: old(counter).spec_tx(),
                        recv_sn: old(counter).spec_rx(),
                        ..i
                    },
                ) && final(counter).spec_tx() == spec_next_count(old(counter).spec_tx()),
            },
            final(counter).spec_rx() == old(counter).spec_rx(),
    {
        match self {
            Telegram104::U(_) => {},
            Telegram104::S(s) => s.chat_sequence_apply_outgoing(&*counter),
            Telegram104::I(i) => i.chat_sequence_apply_outgoing(counter),
        }
    }

    /// Validates the received telegram against the counter values and increments the receive
    /// sequence number if required. An I-frame must carry the receive counter's value as its
    /// send number, and then advances that counter; an S-frame must carry the send counter's
    /// value as its receive number. A mismatch is refused with the number received and the
    /// number expected, and leaves the counter as it was.
    pub fn chat_sequence_validate_incoming(&self, counter: &mut ChatSequenceCounter) -> (r: Result<
        (),
        Error,
    >)
        ensures
            r == spec_validate_incoming(self@, *old(counter)),
            final(counter).spec_tx() == old(counter).spec_tx(),
            final(counter).spec_rx() == (if self@ is I && r is Ok {
                spec_next_count(old(counter).spec_rx())
            } else {
                old(counter).spec_rx()
            }),
    {
        match self {
            Telegram104::U(_) => Ok(()),
            Telegram104::S(s) => s.chat_sequence_validate_incoming(&*counter),
            Telegram104::I(i) => i.chat_sequence_validate_incoming(counter),
        }
    }

    /// New U-frame with start data transfer
    pub fn new_start_dt() -> (r: Self)
        ensures
            r@ == Telegram104View::U(
                Telegram104_UView { test: false, start_dt: true, stop_dt: false, con: false },
            ),
    {
        Self::U(Telegram104_U::new_start_dt())
    }

    /// New U-frame with stop data transfer
    pub fn new_stop_dt() -> (r: Self)
        ensures
            r@ == Telegram104View::U(
                Telegram104_UView { test: false, start_dt: false, stop_dt: true, con: false },
            ),
    {
        Self::U(Telegram104_U::new_stop_dt())
    }

    /// New U-frame with test
    pub fn new_test() -> (r: Self)
        ensures
            r@ == Telegram104View::U(
                Telegram104_UView { test: true, start_dt: false, stop_dt: false, con: false },
            ),
    {
        Self::U(Telegram104_U::new_test())
    }

    /// Serialises the telegram. An I-frame is refused, and no byte of it produced, where a
    /// sequence number is above 32767, where it has more than 255 information objects, or where
    /// it would be longer than 253 bytes.
    pub fn write(&self) -> (r: Result<Vec<u8>, Error>)
        ensures
            match r {
                Ok(b) => spec_write(self@) == Ok::<Seq<u8>, Error>(b@),
                Err(e) => spec_write(self@) == Err::<Seq<u8>, Error>(e),
            },
    {
        let mut buf: Vec<u8> = Vec::new();
        buf.push(IEC_HEADER);
        match self {
            Telegram104::U(u) => {
                u.write(&mut buf);
                proof {
                    assert(buf@ =~= spec_write(self@)->Ok_0);
                }
            },
            Telegram104::S(s) => {
                s.write(&mut buf);
                proof {
                    assert(buf@ =~= spec_write(self@)->Ok_0);
                }
            },
            Telegram104::I(i) => {
                match i.write(&mut buf) {
                    Ok(()) => {},
                    Err(e) => {
                        return Err(e);
                    },
                }
            },
        }
        Ok(buf)
    }

    /// Parses the telegram that the first bytes of `bytes` spell; what follows it is ignored.
    /// Bytes that end before the frame does are refused with `Error::Io`.
    pub fn read(bytes: &[u8]) -> (r: Result<Self, Error>)
        ensures
            match r {
                Ok(t) => spec_read(bytes@) == Ok::<Telegram104View, Error>(t@),
                Err(e) => spec_read(bytes@) == Err::<Telegram104View, Error>(e),
            },
    {
        if bytes.len() < 2 {
            return Err(Error::Io);
        }
        if bytes[0] != IEC_HEADER {
            return Err(Error::InvalidData(Malformed::Header));
        }
        let length: usize = bytes[1] as usize;
        if length > 253 {
            return Err(Error::InvalidData(Malformed::TooLong));
        }
        if bytes.len() < 2 + length {
            return Err(Error::Io);
        }
        if length < 4 {
            return Err(Error::InvalidData(Malformed::TooShort));
        }
        if length == 4 {
            let control_buf: [u8; 4] = [bytes[2], bytes[3], bytes[4], bytes[5]];
            if control_buf[0] & 0b11 == 0b01 {
                match Telegram104_S::try_from_control_buf(control_buf) {
                    Ok(s) => Ok(Telegram104::S(s)),
                    Err(e) => Err(e),
                }
            } else if control_buf[0] & 0b11 == 0b11 {
                Ok(Telegram104::U(Telegram104_U::from_control_buf(control_buf)))
            } else {
                Err(Error::InvalidData(Malformed::ControlField))
            }
        } else {
            let mut buf: Vec<u8> = Vec::new();
            let mut k: usize = 0;
            while k < 253
                invariant
                    k <= 253,
                    length <= 253,
                    2 + length <= bytes@.len(),
                    buf@.len() == k,
                    forall|j: int|
                        0 <= j < k ==> buf@[j] == spec_byte_or_zero(
                            bytes@.subrange(2, 2 + length),
                            j,
                        ),
                decreases 253 - k,
            {
                let b: u8 = if k < length { bytes[2 + k] } else { 0 };
                buf.push(b);
                k += 1;
            }
            proof {
                assert(buf@ =~= spec_padded(bytes@.subrange(2, 2 + length)));
            }
            match Telegram104_I::read(buf.as_slice()) {
                Ok(i) => Ok(Telegram104::I(i)),
                Err(e) => Err(e),
            }
        }
    }

    /// Tells a reader how many more bytes to fetch before `read` can judge the bytes read so
    /// far: zero once they hold a whole frame, or can only be refused.
    pub fn bytes_needed(bytes: &[u8]) -> (r: usize)
        ensures
            r == spec_bytes_needed(bytes@),
    {
        let len: usize = bytes.len();
        if len < 2 {
            return 2 - len;
        }
        let total: usize = 2 + bytes[1] as usize;
        if bytes[0] != IEC_HEADER || bytes[1] > 253 || len >= total {
            0
        } else {
            total - len
        }
    }
}

impl From<Telegram104_S> for Telegram104 {
    fn from(s: Telegram104_S) -> (r: Self) {
        Telegram104::S(s)
    }
}

impl vstd::std_specs::convert::FromSpecImpl<Telegram104_S> for Telegram104 {
    open spec fn obeys_from_spec() -> bool {
        true
    }

    open spec fn from_spec(s: Telegram104_S) -> Self {
        Telegram104::S(s)
    }
}

impl From<Telegram104_U> for Telegram104 {
    fn from(u: Telegram104_U) -> (r: Self) {
        Telegram104::U(u)
    }
}

impl vstd::std_specs::convert::FromSpecImpl<Telegram104_U> for Telegram104 {
    open spec fn obeys_from_spec() -> bool {
        true
    }

    open spec fn from_spec(u: Telegram104_U) -> Self {
        Telegram104::U(u)
    }
}

impl From<Telegram104_I> for Telegram104 {
    fn from(i: Telegram104_I) -> (r: Self) {
        Telegram104::I(i)
    }
}

impl vstd::std_specs::convert::FromSpecImpl<Telegram104_I> for Telegram104 {
    open spec fn obeys_from_spec() -> bool {
        true
    }

    open spec fn from_spec(i: Telegram104_I) -> Self {
        Telegram104::I(i)
    }
}

/// What validating a received telegram against a counter gives: a mismatch carries the number
/// received and the number expected.
pub open spec fn spec_validate_incoming(t: Telegram104View, counter: ChatSequenceCounter) -> Result<
    (),
    Error,
> {
    match t {
        Telegram104View::U(_) => Ok(()),
        Telegram104View::S(s) => if s.recv_sn != counter.spec_tx() {
            Err(Error::ChatSequence(s.recv_sn, counter.spec_tx()))
        } else {
            Ok(())
        },
        Telegram104View::I(i) => if i.send_sn != counter.spec_rx() {
            Err(Error::ChatSequence(i.send_sn, counter.spec_rx()))
        } else {
            Ok(())
        },
    }
}

impl Default for Telegram104_S {
    fn default() -> (r: Self)
        ensures
            r@.recv_sn == 0,
    {
        Telegram104_S { recv_sn: 0 }
    }
}

impl Telegram104_S {
    /// The receive sequence number fits in fifteen bits. Every S-frame satisfies this.
    #[verifier::type_invariant]
    pub open spec fn valid(self) -> bool {
        self@.recv_sn <= FRAME_COUNTER_MAX
    }

    /// Creates a new S-frame telegram
    pub fn new() -> (r: Self)
        ensures
            r@.recv_sn == 0,
    {
        Telegram104_S { recv_sn: 0 }
    }

    /// Applies the counter values to the outgoing telegram send/receive sequence numbers: the
    /// frame takes the receive counter. The counter is only read.
    pub fn chat_sequence_apply_outgoing(&mut self, counter: &ChatSequenceCounter)
        ensures
            final(self)@.recv_sn == counter.spec_rx(),
    {
        self.recv_sn = counter.current_rx();
    }

    /// Validates the received telegram against the counter values: its receive sequence number
    /// must be the send counter's value. The counter is only read.
    pub fn chat_sequence_validate_incoming(&self, counter: &ChatSequenceCounter) -> (r: Result<
        (),
        Error,
    >)
        ensures
            r == spec_validate_incoming(Telegram104View::S(self@), *counter),
    {
        let current_tx: u16 = counter.current_tx();
        if self.recv_sn != current_tx {
            return Err(Error::ChatSequence(self.recv_sn, current_tx));
        }
        Ok(())
    }

    /// Get the receive sequence number
    pub fn recv_sn(&self) -> (r: u16)
        ensures
            r == self@.recv_sn,
    {
        self.recv_sn
    }

    fn try_from_control_buf(control_buf: [u8; 4]) -> (r: Result<Self, Error>)
        ensures
            match r {
                Ok(s) => control_buf[2] & 1 == 0 && s@.recv_sn == spec_sn(
                    control_buf[2],
                    control_buf[3],
                ),
                Err(e) => control_buf[2] & 1 != 0 && e == Error::InvalidData(
                    Malformed::ControlField,
                ),
            },
    {
        if control_buf[2] & 1 != 0 {
            return Err(Error::InvalidData(Malformed::ControlField));
        }
        proof {
            lemma_sn_bound(control_buf[2], control_buf[3]);
        }
        Ok(Self { recv_sn: ((control_buf[2] >> 1) as u16) | ((control_buf[3] as u16) << 7) })
    }

    fn write(&self, buf: &mut Vec<u8>)
        ensures
            final(buf)@ == old(buf)@ + seq![
                4u8,
                0b01u8,
                0u8,
                spec_sn_low(self@.recv_sn),
                spec_sn_high(self@.recv_sn),
            ],
    {
        buf.push(0x4);
        buf.push(0b01);
        buf.push(0);
        buf.push(((self.recv_sn & 0b0111_1111) << 1) as u8);
        buf.push((self.recv_sn >> 7) as u8);
        proof {
            assert(buf@ =~= old(buf)@ + seq![
                4u8,
                0b01u8,
                0u8,
                spec_sn_low(self@.recv_sn),
                spec_sn_high(self@.recv_sn),
            ]);
        }
    }

    /// Convert to Telegram104
    pub fn into_telegram104(self) -> (r: Telegram104)
        ensures
            r@ == Telegram104View::S(self@),
    {
        Telegram104::S(self)
    }
}

impl Telegram104_U {
    /// The frame confirms only a function that it names. Every U-frame satisfies this.
    #[verifier::type_invariant]
    pub open spec fn valid(self) -> bool {
        spec_u_valid(self@)
    }

    /// Is this a start data transfer frame
    pub fn is_start_dt(&self) -> (r: bool)
        ensures
            r == self@.start_dt,
    {
        self.start_dt
    }

    /// Is this a stop data transfer frame
    pub fn is_stop_dt(&self) -> (r: bool)
        ensures
            r == self@.stop_dt,
    {
        self.stop_dt
    }

    /// Is this a test frame
    pub fn is_test(&self) -> (r: bool)
        ensures
            r == self@.test,
    {
        self.test
    }

    /// Is this a confirmation frame
    pub fn is_con(&self) -> (r: bool)
        ensures
            r == self@.con,
    {
        self.con
    }

    /// Creates a new U-frame telegram for starting data transfer
    pub fn new_start_dt() -> (r: Self)
        ensures
            r@ == (Telegram104_UView { test: false, start_dt: true, stop_dt: false, con: false }),
    {
        Self { test: false, start_dt: true, stop_dt: false, con: false }
    }

    /// Creates a new U-frame telegram for stopping data transfer
    pub fn new_stop_dt() -> (r: Self)
        ensures
            r@ == (Telegram104_UView { test: false, start_dt: false, stop_dt: true, con: false }),
    {
        Self { test: false, start_dt: false, stop_dt: true, con: false }
    }

    /// Creates a new U-frame telegram for testing
    pub fn new_test() -> (r: Self)
        ensures
            r@ == (Telegram104_UView { test: true, start_dt: false, stop_dt: false, con: false }),
    {
        Self { test: true, start_dt: false, stop_dt: false, con: false }
    }

    fn from_control_buf(control_buf: [u8; 4]) -> (r: Self)
        ensures
            r@ == spec_u_of_control(control_buf[0]),
    {
        let control: u8 = control_buf[0];
        let mut con: bool = false;
        let test: bool = control & 0b1100_0000 != 0;
        let stop_dt: bool = control & 0b0011_0000 != 0;
        let start_dt: bool = control & 0b0000_1100 != 0;
        if test && control & 0b1000_0000 != 0 {
            con = true;
        }
        if stop_dt && control & 0b0010_0000 != 0 {
            con = true;
        }
        if start_dt && control & 0b0000_1000 != 0 {
            con = true;
        }
        Self { test, start_dt, stop_dt, con }
    }

    fn write(&self, buf: &mut Vec<u8>)
        ensures
            final(buf)@ == old(buf)@ + seq![4u8, spec_u_control(self@), 0u8, 0u8, 0u8],
    {
        let control: u8 = if self.con {
            0b11 | flag(self.test, 0b1000_0000) | flag(self.stop_dt, 0b0010_0000) | flag(
                self.start_dt,
                0b0000_1000,
            )
        } else {
            0b11 | flag(self.test, 0b0100_0000) | flag(self.stop_dt, 0b0001_0000) | flag(
                self.start_dt,
                0b0000_0100,
            )
        };
        buf.push(4);
        buf.push(control);
        buf.push(0);
        buf.push(0);
        buf.push(0);
        proof {
            assert(buf@ =~= old(buf)@ + seq![4u8, spec_u_control(self@), 0u8, 0u8, 0u8]);
        }
    }

    /// Convert to Telegram104
    pub fn into_telegram104(self) -> (r: Telegram104)
        ensures
            r@ == Telegram104View::U(self@),
    {
        Telegram104::U(self)
    }
}

impl Telegram104_I {
    /// Creates a new I-frame telegram
    pub fn new(data_type: DataType, cot: COT, adsu: u16) -> (r: Self)
        ensures
            r@ == (Telegram104_IView {
                send_sn: 0,
                recv_sn: 0,
                data_type,
                test: false,
                negative: false,
                cot,
                originator: 0,
                adsu,
                iou: Seq::empty(),
                sequental: false,
            }),
    {
        Self {
            send_sn: 0,
            recv_sn: 0,
            data_type,
            test: false,
            negative: false,
            cot,
            originator: 0,
            adsu,
            iou: Vec::new(),
            sequental: false,
        }
    }

    /// Applies the counter values to the outgoing telegram send/receive sequence numbers and
    /// increments the send sequence number
    pub fn chat_sequence_apply_outgoing(&mut self, counter: &mut ChatSequenceCounter)
        ensures
            final(self)@ == (Telegram104_IView {
                send_sn: old(counter).spec_tx(),
                recv_sn: old(counter).spec_rx(),
                ..old(self)@
            }),
            final(counter).spec_tx() == spec_next_count(old(counter).spec_tx()),
            final(counter).spec_rx() == old(counter).spec_rx(),
    {
        self.send_sn = counter.current_tx();
        self.recv_sn = counter.current_rx();
        let _ = counter.increment_tx();
    }

    /// Validates the received telegram against the counter values and increments the receive
    /// sequence number. A send sequence number that is not the receive counter's value is
    /// refused with the number received and the number expected, and the counter stays as it
    /// is.
    pub fn chat_sequence_validate_incoming(&self, counter: &mut ChatSequenceCounter) -> (r: Result<
        (),
        Error,
    >)
        ensures
            r == spec_validate_incoming(Telegram104View::I(self@), *old(counter)),
            self@.send_sn != old(counter).spec_rx() ==> r == Err::<(), Error>(
                Error::ChatSequence(self@.send_sn, old(counter).spec_rx()),
            ),
            final(counter).spec_tx() == old(counter).spec_tx(),
            final(counter).spec_rx() == (if r is Ok {
                spec_next_count(old(counter).spec_rx())
            } else {
                old(counter).spec_rx()
            }),
    {
        let current_rx: u16 = counter.current_rx();
        if self.send_sn != current_rx {
            return Err(Error::ChatSequence(self.send_sn, current_rx));
        }
        let _ = counter.increment_rx();
        Ok(())
    }

    /// Manually sets the TX (send) sequence number
    pub fn with_send_sn(self, send_sn: u16) -> (r: Self)
        ensures
            r@ == (Telegram104_IView { send_sn: send_sn, ..self@ }),
    {
        let mut t = self;
        t.send_sn = send_sn;
        t
    }

    /// Manually sets the RX (receive) sequence number
    pub fn with_recv_sn(self, recv_sn: u16) -> (r: Self)
        ensures
            r@ == (Telegram104_IView { recv_sn: recv_sn, ..self@ }),
    {
        let mut t = self;
        t.recv_sn = recv_sn;
        t
    }

    /// Manually sets data to sequental
    pub fn with_seq(self) -> (r: Self)
        ensures
            r@ == (Telegram104_IView { sequental: true, ..self@ }),
    {
        let mut t = self;
        t.sequental = true;
        t
    }

    /// Sets the COT
    pub fn with_cot(self, cot: COT) -> (r: Self)
        ensures
            r@ == (Telegram104_IView { cot: cot, ..self@ }),
    {
        let mut t = self;
        t.cot = cot;
        t
    }

    /// Sets the data type
    pub fn with_data_type(self, data_type: DataType) -> (r: Self)
        ensures
            r@ == (Telegram104_IView { data_type: data_type, ..self@ }),
    {
        let mut t = self;
        t.data_type = data_type;
        t
    }

    /// Sets the ADSU
    pub fn with_adsu(self, adsu: u16) -> (r: Self)
        ensures
            r@ == (Telegram104_IView { adsu: adsu, ..self@ }),
    {
        let mut t = self;
        t.adsu = adsu;
        t
    }

    /// Set the test flag
    pub fn with_test(self) -> (r: Self)
        ensures
            r@ == (Telegram104_IView { test: true, ..self@ }),
    {
        let mut t = self;
        t.test = true;
        t
    }

    /// Set the negative flag
    pub fn with_negative(self) -> (r: Self)
        ensures
            r@ == (Telegram104_IView { negative: true, ..self@ }),
    {
        let mut t = self;
        t.negative = true;
        t
    }

    /// Set the originator address
    pub fn with_originator(self, originator: u8) -> (r: Self)
        ensures
            r@ == (Telegram104_IView { originator: originator, ..self@ }),
    {
        let mut t = self;
        t.originator = originator;
        t
    }

    /// Get the send sequence number
    pub fn send_sn(&self) -> (r: u16)
        ensures
            r == self@.send_sn,
    {
        self.send_sn
    }

    /// Get the receive sequence number
    pub fn recv_sn(&self) -> (r: u16)
        ensures
            r == self@.recv_sn,
    {
        self.recv_sn
    }

    /// Get the data type
    pub fn data_type(&self) -> (r: DataType)
        ensures
            r == self@.data_type,
    {
        self.data_type
    }

    /// Get the COT
    pub fn cot(&self) -> (r: COT)
        ensures
            r == self@.cot,
    {
        self.cot
    }

    /// Get the ADSU
    pub fn adsu(&self) -> (r: u16)
        ensures
            r == self@.adsu,
    {
        self.adsu
    }

    /// Is this a test frame
    pub fn is_test(&self) -> (r: bool)
        ensures
            r == self@.test,
    {
        self.test
    }

    /// Is this a negative frame
    pub fn is_negative(&self) -> (r: bool)
        ensures
            r == self@.negative,
    {
        self.negative
    }

    /// is this a sequental frame
    pub fn is_sequental(&self) -> (r: bool)
        ensures
            r == self@.sequental,
    {
        self.sequental
    }

    /// Get the originator
    pub fn originator(&self) -> (r: u8)
        ensures
            r == self@.originator,
    {
        self.originator
    }
    /// Get the information objects
    pub fn iou(&self) -> (r: &[Iou])
        ensures
            r@ == self@.iou,
    {
        self.iou.as_slice()
    }

    /// Get the information objects as mutable
    pub fn iou_mut(&mut self) -> (r: &mut [Iou])
        ensures
            r@ == old(self)@.iou,
            final(self)@ == (Telegram104_IView { iou: final(r)@, ..old(self)@ }),
    {
        self.iou.as_mut_slice()
    }

    /// Set the information objects from a vector
    pub fn with_iou(self, iou: Vec<Iou>) -> (r: Self)
        ensures
            r@ == (Telegram104_IView { iou: iou@, ..self@ }),
    {
        let mut t = self;
        t.iou = iou;
        t
    }

    /// Clear the information objects
    pub fn clear_iou(&mut self)
        ensures
            final(self)@ == (Telegram104_IView { iou: Seq::empty(), ..old(self)@ }),
    {
        self.iou.clear();
    }

    /// Append a single IOU
    pub fn append_iou<T: Into<DataBuffer>>(&mut self, address: u32, value: T)
        ensures
            final(self)@.iou.len() == old(self)@.iou.len() + 1,
            final(self)@ == (Telegram104_IView {
                iou: old(self)@.iou.push(final(self)@.iou.last()),
                ..old(self)@
            }),
            final(self)@.iou.last().address == address,
            call_ensures(T::into, (value,), final(self)@.iou.last().value),
    {
        self.iou.push(Iou::new(address, value));
    }

    /// Append next IOU in sequence (marks the telegram data as sequental)
    pub fn append_iou_seq<T: Into<DataBuffer>>(&mut self, value: T)
        ensures
            final(self)@.iou.len() == old(self)@.iou.len() + 1,
            final(self)@ == (Telegram104_IView {
                iou: old(self)@.iou.push(final(self)@.iou.last()),
                sequental: true,
                ..old(self)@
            }),
            final(self)@.iou.last().address == 0,
            call_ensures(T::into, (value,), final(self)@.iou.last().value),
    {
        self.sequental = true;
        self.iou.push(Iou::new(0, value));
    }

    fn read(bytes: &[u8]) -> (r: Result<Self, Error>)
        requires
            bytes@.len() == 253,
        ensures
            match r {
                Ok(t) => spec_read_i(bytes@) == Ok::<Telegram104_IView, Error>(t@),
                Err(e) => spec_read_i(bytes@) == Err::<Telegram104_IView, Error>(e),
            },
    {
        if bytes[0] & 0b0000_0001 != 0 {
            return Err(Error::InvalidData(Malformed::ControlField));
        }
        let send_sn: u16 = ((bytes[0] >> 1) as u16) | ((bytes[1] as u16) << 7);
        let recv_sn: u16 = ((bytes[2] >> 1) as u16) | ((bytes[3] as u16) << 7);
        if send_sn > 32768 {
            return Err(Error::InvalidData(Malformed::SendSequence));
        }
        if recv_sn > 32768 {
            return Err(Error::InvalidData(Malformed::ReceiveSequence));
        }
        let data_type: DataType = match DataType::try_from(bytes[4]) {
            Ok(t) => t,
            Err(_) => {
                return Err(Error::InvalidData(Malformed::DataType(bytes[4])));
            },
        };
        let sequental: bool = bytes[5] & 0b1000_0000 != 0;
        let cot_byte: u8 = bytes[6];
        let test: bool = cot_byte & 0b1000_0000 != 0;
        let negative: bool = cot_byte & 0b0100_0000 != 0;
        let cot: COT = match COT::try_from(cot_byte & 0b0011_1111) {
            Ok(c) => c,
            Err(_) => {
                return Err(Error::InvalidData(Malformed::Cot(cot_byte)));
            },
        };
        let originator: u8 = bytes[7];
        let adsu: u32 = read_le(bytes, 8, 2);
        proof {
            lemma_masked(bytes[5]);
        }
        let iou: Vec<Iou> = match parse_objects(
            bytes,
            10,
            bytes[5] & 0b0111_1111,
            sequental,
            3,
            data_type.size(),
        ) {
            Some(iou) => iou,
            None => {
                return Err(Error::Io);
            },
        };
        Ok(
            Self {
                send_sn,
                recv_sn,
                data_type,
                test,
                negative,
                cot,
                originator,
                adsu: adsu as u16,
                iou,
                sequental,
            },
        )
    }

    fn write(&self, buf: &mut Vec<u8>) -> (r: Result<(), Error>)
        requires
            old(buf)@ == seq![IEC_HEADER],
        ensures
            match r {
                Ok(()) => spec_write_i(self@) == Ok::<Seq<u8>, Error>(final(buf)@),
                Err(e) => spec_write_i(self@) == Err::<Seq<u8>, Error>(e),
            },
    {
        if self.send_sn > FRAME_COUNTER_MAX {
            return Err(Error::InvalidData(Malformed::SendSequence));
        }
        if self.recv_sn > FRAME_COUNTER_MAX {
            return Err(Error::InvalidData(Malformed::ReceiveSequence));
        }
        let count: usize = self.iou.len();
        if count > 255 {
            return Err(Error::InvalidData(Malformed::TooManyObjects));
        }
        let kind_size: usize = self.data_type.size();
        proof {
            assert(count * kind_size <= 255 * 12) by (nonlinear_arith)
                requires
                    count <= 255,
                    kind_size <= 12,
            ;
            assert(count * (3 + kind_size) <= 255 * 15) by (nonlinear_arith)
                requires
                    count <= 255,
                    3 + kind_size <= 15,
            ;
        }
        let mut length: usize = 4;  // control fields
        if count > 0 {
            length += 6;  // type identifier, number of objects, cause, originator, ADSU
        }
        if self.sequental {
            length += 3 + count * kind_size;
        } else {
            length += count * (3 + kind_size);
        }
        assert(length == spec_i_length(self@));
        if length > 253 {
            return Err(Error::InvalidData(Malformed::TooLong));
        }
        buf.push(length as u8);
        buf.push(((self.send_sn & 0b0111_1111) << 1) as u8);
        buf.push((self.send_sn >> 7) as u8);
        buf.push(((self.recv_sn & 0b0111_1111) << 1) as u8);
        buf.push((self.recv_sn >> 7) as u8);
        let ghost head = buf@;
        proof {
            assert(head =~= seq![
                IEC_HEADER,
                spec_i_length(self@) as u8,
                spec_sn_low(self@.send_sn),
                spec_sn_high(self@.send_sn),
                spec_sn_low(self@.recv_sn),
                spec_sn_high(self@.recv_sn),
            ]);
        }
        if count == 0 {
            proof {
                assert(buf@ =~= head + spec_i_body(self@));
            }
            return Ok(());
        }
        buf.push(self.data_type.code());
        buf.push((count as u8) | flag(self.sequental, 0b1000_0000));
        buf.push(
            self.cot.code() | flag(self.negative, 0b0100_0000) | flag(self.test, 0b1000_0000),
        );
        buf.push(self.originator);
        let ghost fields = buf@;
        proof {
            assert(fields =~= head + seq![
                self@.data_type.spec_code(),
                spec_count_byte(self@.iou.len(), self@.sequental),
                spec_cot_byte(self@.cot, self@.test, self@.negative),
                self@.originator,
            ]);
        }
        push_le(buf, self.adsu as u32, 2);
        push_objects(buf, &self.iou, self.sequental, 3, kind_size);
        proof {
            assert(buf@ =~= head + spec_i_body(self@));
        }
        Ok(())
    }

    /// Convert to Telegram104
    pub fn into_telegram104(self) -> (r: Telegram104)
        ensures
            r@ == Telegram104View::I(self@),
    {
        Telegram104::I(self)
    }
}

/// Whether a telegram is one that parsing can give. A U-frame confirms only a function that
/// it names; the receive number of an S-frame fits in fifteen bits; an I-frame has between 1
/// and 127 information objects, and its object list is canonical for three-byte addresses.
pub open spec fn spec_canonical(t: Telegram104View) -> bool {
    match t {
        Telegram104View::U(u) => spec_u_valid(u),
        Telegram104View::S(s) => s.recv_sn <= FRAME_COUNTER_MAX,
        Telegram104View::I(i) => {
            &&& 1 <= i.iou.len() <= 127
            &&& spec_objects_canonical(i.iou, i.sequental, 3, i.data_type.spec_size())
        },
    }
}

proof fn lemma_i_round_trip(v: Telegram104_IView, rest: Seq<u8>)
    requires
        spec_canonical(Telegram104View::I(v)),
        spec_write_i(v) is Ok,
    ensures
        spec_read(spec_write_i(v)->Ok_0 + rest) == Ok::<Telegram104View, Error>(
            Telegram104View::I(v),
        ),
{
    let size = v.data_type.spec_size();
    let count = v.iou.len();
    let n = spec_i_length(v) as int;
    let frame = spec_write_i(v)->Ok_0;
    let b = frame + rest;
    let objs = spec_objects(v.iou, v.sequental, 3, size);
    let body = spec_i_body(v);
    lemma_objects_len(v.iou, v.sequental, 3, size);
    assert(count * size >= 0) by (nonlinear_arith)
        requires
            count >= 0,
            size >= 0,
    ;
    assert(count * (3 + size) >= 3) by (nonlinear_arith)
        requires
            count >= 1,
            size >= 0,
    ;
    assert(objs.len() == spec_objects_len(count, v.sequental, 3, size));
    assert(body.len() == 6 + objs.len());
    assert(frame.len() == 2 + n);
    assert(n > 4);
    assert(b[0] == IEC_HEADER);
    assert(b[1] == n);
    let content = b.subrange(2, 2 + n);
    let p = spec_padded(content);
    let zeros = Seq::new((253 - n) as nat, |i: int| 0u8);
    assert(p[0] == spec_sn_low(v.send_sn));
    assert(p[1] == spec_sn_high(v.send_sn));
    assert(p[2] == spec_sn_low(v.recv_sn));
    assert(p[3] == spec_sn_high(v.recv_sn));
    assert(p[4] == v.data_type.spec_code());
    assert(p[5] == spec_count_byte(count, v.sequental));
    assert(p[6] == spec_cot_byte(v.cot, v.test, v.negative));
    assert(p[7] == v.originator);
    assert(p.subrange(8, 10) =~= spec_le_bytes(v.adsu as u32, 2));
    assert(p.skip(10) =~= objs + zeros);
    lemma_sn_round_trip(v.send_sn);
    lemma_sn_round_trip(v.recv_sn);
    v.data_type.lemma_code_round_trip();
    v.cot.lemma_code_round_trip();
    lemma_cot_byte(v.cot, v.test, v.negative);
    lemma_count_byte(count, v.sequental);
    lemma_le_round_trip(v.adsu as u32, 2);
    lemma_objects_round_trip(v.iou, v.sequental, 3, size, zeros);
    assert(spec_read_i(p) == Ok::<Telegram104_IView, Error>(v));
}

/// A canonical telegram that can be serialised is parsed back from its bytes, whatever follows
/// them.
pub proof fn lemma_write_read_round_trip(t: Telegram104View, rest: Seq<u8>)
    requires
        spec_canonical(t),
        spec_write(t) is Ok,
    ensures
        spec_read(spec_write(t)->Ok_0 + rest) == Ok::<Telegram104View, Error>(t),
{
    let b = spec_write(t)->Ok_0 + rest;
    match t {
        Telegram104View::U(u) => {
            lemma_u_control_round_trip(u);
            assert(b[0] == IEC_HEADER && b[1] == 4 && b[2] == spec_u_control(u));
        },
        Telegram104View::S(s) => {
            lemma_sn_round_trip(s.recv_sn);
            lemma_u_bits(false, false, false);
            assert(b[0] == IEC_HEADER && b[1] == 4 && b[2] == 1 && b[4] == spec_sn_low(s.recv_sn)
                && b[5] == spec_sn_high(s.recv_sn));
        },
        Telegram104View::I(i) => {
            lemma_i_round_trip(i, rest);
        },
    }
}

/// Every telegram that parsing gives is canonical, but for an I-frame without objects: so
/// parsing, serialising and parsing again gives the same telegram.
pub proof fn lemma_read_gives_canonical(b: Seq<u8>)
    requires
        spec_read(b) is Ok,
        !(spec_read(b)->Ok_0 matches Telegram104View::I(i) && i.iou.len() == 0),
    ensures
        spec_canonical(spec_read(b)->Ok_0),
{
    if b[1] == 4 {
        lemma_sn_bound(b[4], b[5]);
    } else {
        let p = spec_padded(b.subrange(2, 2 + b[1]));
        let data_type = DataType::try_from_spec(p[4])->Ok_0;
        lemma_masked(p[5]);
        lemma_parsed_objects_canonical(
            p.skip(10),
            (p[5] & 0x7f) as nat,
            p[5] & 0x80 != 0,
            3,
            data_type.spec_size(),
        );
    }
}

/// While a frame that was written is still arriving, a reader is asked for more bytes, never
/// for more than the frame has left, and for none once the frame is whole. (An I-frame
/// without objects that is marked sequential announces more bytes than it has, and is left
/// out.)
pub proof fn lemma_bytes_needed_within_frame(t: Telegram104View, k: int)
    requires
        spec_write(t) is Ok,
        !(t matches Telegram104View::I(i) && i.iou.len() == 0 && i.sequental),
        0 <= k <= spec_write(t)->Ok_0.len(),
    ensures
        k < spec_write(t)->Ok_0.len() ==> 0 < spec_bytes_needed(spec_write(t)->Ok_0.take(k))
            <= spec_write(t)->Ok_0.len() - k,
        k == spec_write(t)->Ok_0.len() ==> spec_bytes_needed(spec_write(t)->Ok_0) == 0,
{
    let frame = spec_write(t)->Ok_0;
    let b = frame.take(k);
    if let Telegram104View::I(v) = t {
        let size = v.data_type.spec_size();
        lemma_objects_len(v.iou, v.sequental, 3, size);
        assert(frame.len() == 2 + spec_i_length(v)) by {
            if v.iou.len() > 0 {
                assert(spec_i_body(v).len() == 6 + spec_objects(v.iou, v.sequental, 3, size).len());
            }
        }
        assert(frame[1] == spec_i_length(v));
    } else {
        assert(frame.len() == 6 && frame[1] == 4);
    }
    assert(frame[0] == IEC_HEADER);
    if k >= 2 {
        assert(b[0] == frame[0] && b[1] == frame[1]);
    }
    if k == frame.len() {
        assert(b =~= frame);
    }
}

/// Parsing never refuses a cause of transmission or a sequence number: the six bits of the
/// cause byte always name a cause, and two control bytes never spell a number above 32767.
pub proof fn lemma_read_accepts_every_cause_and_number(b: Seq<u8>)
    ensures
        !(spec_read(b) matches Err(Error::InvalidData(Malformed::Cot(_)))),
        !(spec_read(b) matches Err(Error::InvalidData(Malformed::SendSequence))),
        !(spec_read(b) matches Err(Error::InvalidData(Malformed::ReceiveSequence))),
{
    if b.len() >= 2 && b.len() >= 2 + b[1] && b[1] > 4 {
        let p = spec_padded(b.subrange(2, 2 + b[1]));
        lemma_masked(p[6]);
        COT::lemma_try_from_total(p[6] & 0x3f);
        lemma_sn_bound(p[0], p[1]);
        lemma_sn_bound(p[2], p[3]);
    }
}

/// After an I-frame has been stamped for sending, a peer whose receive counter holds the
/// sender's former send counter accepts it.
pub proof fn lemma_stamped_frame_is_accepted(
    v: Telegram104_IView,
    sender: ChatSequenceCounter,
    receiver: ChatSequenceCounter,
)
    requires
        receiver.spec_rx() == sender.spec_tx(),
    ensures
        spec_validate_incoming(
            Telegram104View::I(
                Telegram104_IView { send_sn: sender.spec_tx(), recv_sn: sender.spec_rx(), ..v },
            ),
            receiver,
        ) is Ok,
{
}

} // verus!
