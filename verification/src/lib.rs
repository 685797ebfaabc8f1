//! Telegram codecs for the IEC 60870-5 telemetry protocols: the serial variant (101) and the
//! networked variant (104), with the application data types they carry.
//!
//! Frames are parsed from and serialised to byte sequences. Every codec function states its
//! result over a mathematical model of the wire format.
#![allow(non_camel_case_types)]

use vstd::prelude::*;

/// Server events
pub mod events;
/// IEC 60870-5-101
pub mod telegram101;
/// IEC 60870-5-104
pub mod telegram104;
/// Common data types
pub mod types;
/// Byte-level building blocks shared by both frame formats
pub mod wire;

verus! {

/// Why a byte sequence or a frame value was refused as malformed.
#[derive(Debug, Copy, Clone, PartialEq, Eq, Structural)]
pub enum Malformed {
    /// A start marker is not the expected one
    Header,
    /// The two length bytes of a variable-length frame differ
    Length,
    /// The frame is longer than 253 bytes
    TooLong,
    /// The frame is shorter than its four control bytes
    TooShort,
    /// The checksum byte is not the sum of the bytes it covers
    Checksum,
    /// The stop marker is not the expected one
    Stop,
    /// The control field does not fit the kind of frame
    ControlField,
    /// The type identifier is not a known data type
    DataType(u8),
    /// The cause byte holds no known cause of transmission
    Cot(u8),
    /// More information objects than the count field can hold
    TooManyObjects,
    /// The send sequence number does not fit in fifteen bits
    SendSequence,
    /// The receive sequence number does not fit in fifteen bits
    ReceiveSequence,
}

/// Error type
#[derive(Debug, Copy, Clone, PartialEq, Eq, Structural)]
pub enum Error {
    /// The input ended before the frame was complete (a transport reports this as an
    /// unexpected end of input)
    Io,
    /// Unsupported data type
    DataType(u8),
    /// Unsupported COT
    COT(u8),
    /// Operation overflow
    Overflow,
    /// Data conversion errors
    Conversion,
    /// TX/RX chat sequence errors: the number received and the number expected
    ChatSequence(u16, u16),
    /// Invalid data
    InvalidData(Malformed),
}

} // verus!
