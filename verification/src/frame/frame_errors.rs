//! Errors of the wire codecs.

use vstd::prelude::*;

verus! {

/// Why the body of a message could not be decoded.
#[derive(Debug, Clone, Copy, PartialEq, Eq)]
pub enum ParseError {
    /// The buffer ends before the value does.
    UnexpectedEof,
    /// A length or a count is negative where only a natural number makes sense.
    NegativeLength(i32),
    /// The bytes of a string are not UTF-8.
    InvalidUtf8,
    /// An `ascii` value holds a byte above 127.
    NotAscii,
    /// A value of a fixed-width type came with another number of bytes.
    BadValueLength(usize),
    /// The id of a column type that is not decoded here.
    TypeNotImplemented(u16),
    /// The kind of a `RESULT` body is none of the five known ones.
    UnknownResultKind(i32),
    /// A consistency level outside the protocol's table.
    UnknownConsistency(u16),
    /// Column specifications are missing although rows follow.
    MissingColumnSpecs,
}

/// Why a frame could not be decoded.
#[derive(Debug, Clone, Copy, PartialEq, Eq)]
pub enum FrameError {
    /// Fewer than the nine bytes of a header are there.
    IncompleteHeader,
    /// The version byte is neither a version 4 request nor a version 4 response.
    BadVersion(u8),
    /// The opcode byte names no message.
    UnknownOpcode(u8),
    /// The opcode is a request's in a response frame, or the reverse.
    WrongDirection(u8),
    /// The header announces a negative body length.
    NegativeBodyLength(i32),
    /// Fewer body bytes are there than the header announces.
    IncompleteBody,
    /// A body is longer than a header can say: its length.
    BodyTooLong(usize),
}

/// Why a value could not be encoded.
#[derive(Debug, Clone, Copy, PartialEq, Eq)]
pub enum SerializeError {
    /// A string or a list is longer than its 16-bit length field can say.
    ShortLengthOverflow,
    /// A byte string or a collection is longer than its signed 32-bit length
    /// field can say.
    IntLengthOverflow,
    /// A batch came with another number of lists of values than it has
    /// statements.
    ValueCountMismatch,
}

/// Why the body of a frame could not be compressed, or a compressed body
/// not be unpacked.
#[derive(Debug, Clone, Copy, PartialEq, Eq)]
pub enum CompressionError {
    /// The body ends before the length that stands before an LZ4 block does.
    MissingLength,
    /// The length before an LZ4 block is negative.
    NegativeLength(i32),
    /// The body is longer than a body can be: its length, or the length
    /// that compressed data announces.
    TooLong(usize),
    /// The compressed data is damaged.
    Damaged,
}

} // verus!
