//! Frames: the envelope of every message. A frame is a header of nine bytes
//! and a body whose length the header gives: the version with the
//! direction, the flags, the stream id, the opcode, the length of the body,
//! and the body.

use crate::frame::frame_errors::FrameError;
use crate::frame::types::{
    be_read_i16, be_read_i32, i16_from_be, i16_to_be, i32_from_be, i32_to_be, int_wire,
    lemma_i16_be_roundtrip, lemma_i32_be_roundtrip, write_int,
};
use vstd::prelude::*;

verus! {

/// The version byte of a request.
pub const REQUEST_VERSION: u8 = 0x04;

/// The version byte of a response.
pub const RESPONSE_VERSION: u8 = 0x84;

/// The flag that says that the body is compressed.
pub const FLAG_COMPRESSION: u8 = 0x01;

/// The flag that asks for tracing, or says that a tracing id is there.
pub const FLAG_TRACING: u8 = 0x02;

/// The number of bytes of a header.
pub const HEADER_SIZE: usize = 9;

/// The messages that the driver sends.
#[derive(Debug, Clone, Copy, PartialEq, Eq, Structural)]
pub enum RequestOpcode {
    Startup,
    Options,
    Query,
    Prepare,
    Execute,
    Register,
    Batch,
    AuthResponse,
}

/// The messages that the server sends.
#[derive(Debug, Clone, Copy, PartialEq, Eq, Structural)]
pub enum ResponseOpcode {
    Error,
    Ready,
    Authenticate,
    Supported,
    Result,
    Event,
    AuthChallenge,
    AuthSuccess,
}

/// The kind of a message, which says its direction too.
#[derive(Debug, Clone, Copy, PartialEq, Eq, Structural)]
pub enum Opcode {
    Request(RequestOpcode),
    Response(ResponseOpcode),
}

impl RequestOpcode {
    /// The byte that stands for the message.
    pub open spec fn code(self) -> u8 {
        match self {
            RequestOpcode::Startup => 0x01,
            RequestOpcode::Options => 0x05,
            RequestOpcode::Query => 0x07,
            RequestOpcode::Prepare => 0x09,
            RequestOpcode::Execute => 0x0A,
            RequestOpcode::Register => 0x0B,
            RequestOpcode::Batch => 0x0D,
            RequestOpcode::AuthResponse => 0x0F,
        }
    }

    /// The request that a byte stands for, if any.
    pub open spec fn of_code(code: u8) -> Option<RequestOpcode> {
        if code == 0x01 {
            Some(RequestOpcode::Startup)
        } else if code == 0x05 {
            Some(RequestOpcode::Options)
        } else if code == 0x07 {
            Some(RequestOpcode::Query)
        } else if code == 0x09 {
            Some(RequestOpcode::Prepare)
        } else if code == 0x0A {
            Some(RequestOpcode::Execute)
        } else if code == 0x0B {
            Some(RequestOpcode::Register)
        } else if code == 0x0D {
            Some(RequestOpcode::Batch)
        } else if code == 0x0F {
            Some(RequestOpcode::AuthResponse)
        } else {
            None
        }
    }

    /// The byte that stands for the message.
    pub fn to_u8(self) -> (r: u8)
        ensures
            r == self.code(),
    {
        match self {
            RequestOpcode::Startup => 0x01,
            RequestOpcode::Options => 0x05,
            RequestOpcode::Query => 0x07,
            RequestOpcode::Prepare => 0x09,
            RequestOpcode::Execute => 0x0A,
            RequestOpcode::Register => 0x0B,
            RequestOpcode::Batch => 0x0D,
            RequestOpcode::AuthResponse => 0x0F,
        }
    }

    /// The request that a byte stands for, if any.
    pub fn from_u8(code: u8) -> (r: Option<RequestOpcode>)
        ensures
            r == RequestOpcode::of_code(code),
    {
        match code {
            0x01 => Some(RequestOpcode::Startup),
            0x05 => Some(RequestOpcode::Options),
            0x07 => Some(RequestOpcode::Query),
            0x09 => Some(RequestOpcode::Prepare),
            0x0A => Some(RequestOpcode::Execute),
            0x0B => Some(RequestOpcode::Register),
            0x0D => Some(RequestOpcode::Batch),
            0x0F => Some(RequestOpcode::AuthResponse),
            _ => None,
        }
    }
}

impl ResponseOpcode {
    /// The byte that stands for the message.
    pub open spec fn code(self) -> u8 {
        match self {
            ResponseOpcode::Error => 0x00,
            ResponseOpcode::Ready => 0x02,
            ResponseOpcode::Authenticate => 0x03,
            ResponseOpcode::Supported => 0x06,
            ResponseOpcode::Result => 0x08,
            ResponseOpcode::Event => 0x0C,
            ResponseOpcode::AuthChallenge => 0x0E,
            ResponseOpcode::AuthSuccess => 0x10,
        }
    }

    /// The response that a byte stands for, if any.
    pub open spec fn of_code(code: u8) -> Option<ResponseOpcode> {
        if code == 0x00 {
            Some(ResponseOpcode::Error)
        } else if code == 0x02 {
            Some(ResponseOpcode::Ready)
        } else if code == 0x03 {
            Some(ResponseOpcode::Authenticate)
        } else if code == 0x06 {
            Some(ResponseOpcode::Supported)
        } else if code == 0x08 {
            Some(ResponseOpcode::Result)
        } else if code == 0x0C {
            Some(ResponseOpcode::Event)
        } else if code == 0x0E {
            Some(ResponseOpcode::AuthChallenge)
        } else if code == 0x10 {
            Some(ResponseOpcode::AuthSuccess)
        } else {
            None
        }
    }

    /// The byte that stands for the message.
    pub fn to_u8(self) -> (r: u8)
        ensures
            r == self.code(),
    {
        match self {
            ResponseOpcode::Error => 0x00,
            ResponseOpcode::Ready => 0x02,
            ResponseOpcode::Authenticate => 0x03,
            ResponseOpcode::Supported => 0x06,
            ResponseOpcode::Result => 0x08,
            ResponseOpcode::Event => 0x0C,
            ResponseOpcode::AuthChallenge => 0x0E,
            ResponseOpcode::AuthSuccess => 0x10,
        }
    }

    /// The response that a byte stands for, if any.
    pub fn from_u8(code: u8) -> (r: Option<ResponseOpcode>)
        ensures
            r == ResponseOpcode::of_code(code),
    {
        match code {
            0x00 => Some(ResponseOpcode::Error),
            0x02 => Some(ResponseOpcode::Ready),
            0x03 => Some(ResponseOpcode::Authenticate),
            0x06 => Some(ResponseOpcode::Supported),
            0x08 => Some(ResponseOpcode::Result),
            0x0C => Some(ResponseOpcode::Event),
            0x0E => Some(ResponseOpcode::AuthChallenge),
            0x10 => Some(ResponseOpcode::AuthSuccess),
            _ => None,
        }
    }
}

impl Opcode {
    /// The version byte of a frame that carries the message.
    pub open spec fn version(self) -> u8 {
        match self {
            Opcode::Request(_) => REQUEST_VERSION,
            Opcode::Response(_) => RESPONSE_VERSION,
        }
    }

    /// The byte that stands for the message.
    pub open spec fn code(self) -> u8 {
        match self {
            Opcode::Request(op) => op.code(),
            Opcode::Response(op) => op.code(),
        }
    }

    /// The message that an opcode byte stands for in a frame of the given
    /// version, or what is wrong with the two.
    pub open spec fn of_bytes(version: u8, code: u8) -> Result<Opcode, FrameError> {
        if version == REQUEST_VERSION {
            match RequestOpcode::of_code(code) {
                Some(op) => Ok(Opcode::Request(op)),
                None => if ResponseOpcode::of_code(code) is Some {
                    Err(FrameError::WrongDirection(code))
                } else {
                    Err(FrameError::UnknownOpcode(code))
                },
            }
        } else if version == RESPONSE_VERSION {
            match ResponseOpcode::of_code(code) {
                Some(op) => Ok(Opcode::Response(op)),
                None => if RequestOpcode::of_code(code) is Some {
                    Err(FrameError::WrongDirection(code))
                } else {
                    Err(FrameError::UnknownOpcode(code))
                },
            }
        } else {
            Err(FrameError::BadVersion(version))
        }
    }

    /// The version byte and the opcode byte of a message.
    pub fn to_bytes(self) -> (r: (u8, u8))
        ensures
            r == (self.version(), self.code()),
    {
        match self {
            Opcode::Request(op) => (REQUEST_VERSION, op.to_u8()),
            Opcode::Response(op) => (RESPONSE_VERSION, op.to_u8()),
        }
    }

    /// The message that an opcode byte stands for in a frame of the given
    /// version.
    pub fn from_bytes(version: u8, code: u8) -> (r: Result<Opcode, FrameError>)
        ensures
            r == Opcode::of_bytes(version, code),
    {
        if version == REQUEST_VERSION {
            match RequestOpcode::from_u8(code) {
                Some(op) => Ok(Opcode::Request(op)),
                None => if ResponseOpcode::from_u8(code).is_some() {
                    Err(FrameError::WrongDirection(code))
                } else {
                    Err(FrameError::UnknownOpcode(code))
                },
            }
        } else if version == RESPONSE_VERSION {
            match ResponseOpcode::from_u8(code) {
                Some(op) => Ok(Opcode::Response(op)),
                None => if RequestOpcode::from_u8(code).is_some() {
                    Err(FrameError::WrongDirection(code))
                } else {
                    Err(FrameError::UnknownOpcode(code))
                },
            }
        } else {
            Err(FrameError::BadVersion(version))
        }
    }

    /// A message is the one that its own bytes stand for.
    pub proof fn lemma_bytes_roundtrip(self)
        ensures
            Opcode::of_bytes(self.version(), self.code()) == Ok::<_, FrameError>(self),
    {
    }
}

/// The header of a frame.
#[derive(Debug, Clone, Copy, PartialEq, Eq, Structural)]
pub struct FrameHeader {
    /// The flags: compression and tracing.
    pub flags: u8,
    /// The stream id, which ties a response to its request. Negative ids
    /// are the server's, for events.
    pub stream: i16,
    /// The kind of the message, and its direction.
    pub opcode: Opcode,
    /// The number of bytes of the body.
    pub length: usize,
}

/// A frame.
#[derive(Debug)]
pub struct Frame {
    /// The flags: compression and tracing.
    pub flags: u8,
    /// The stream id.
    pub stream: i16,
    /// The kind of the message, and its direction.
    pub opcode: Opcode,
    /// The body, as it is on the wire.
    pub body: Vec<u8>,
}

/// What a [`Frame`] says.
pub struct FrameView {
    pub flags: u8,
    pub stream: i16,
    pub opcode: Opcode,
    pub body: Seq<u8>,
}

impl View for Frame {
    type V = FrameView;

    open spec fn view(&self) -> FrameView {
        FrameView { flags: self.flags, stream: self.stream, opcode: self.opcode, body: self.body@ }
    }
}

impl FrameHeader {
    /// Whether the body is compressed.
    pub fn is_compressed(&self) -> (r: bool)
        ensures
            r == (self.flags & FLAG_COMPRESSION != 0),
    {
        self.flags & FLAG_COMPRESSION != 0
    }

    /// Whether tracing is asked for, or a tracing id is there.
    pub fn is_traced(&self) -> (r: bool)
        ensures
            r == (self.flags & FLAG_TRACING != 0),
    {
        self.flags & FLAG_TRACING != 0
    }
}

/// The nine bytes of a header.
pub open spec fn header_wire(header: FrameHeader) -> Seq<u8>
    recommends
        header.length <= i32::MAX,
{
    seq![header.opcode.version(), header.flags] + i16_to_be(header.stream as int) + seq![
        header.opcode.code(),
    ] + int_wire(header.length as i32)
}

/// A frame on the wire: the header, which gives the length of the body, and
/// the body.
pub open spec fn frame_wire(frame: FrameView) -> Seq<u8>
    recommends
        frame.body.len() <= i32::MAX,
{
    header_wire(
        FrameHeader {
            flags: frame.flags,
            stream: frame.stream,
            opcode: frame.opcode,
            length: frame.body.len() as usize,
        },
    ) + frame.body
}

/// What a reader of a header makes of the bytes under the cursor. The
/// version is looked at first, then the opcode, then the length.
pub open spec fn parse_header(s: Seq<u8>) -> Result<(FrameHeader, Seq<u8>), FrameError> {
    if s.len() < HEADER_SIZE {
        Err(FrameError::IncompleteHeader)
    } else {
        match Opcode::of_bytes(s[0], s[4]) {
            Err(e) => Err(e),
            Ok(opcode) => {
                let length = i32_from_be(s.subrange(5, 9));
                if length < 0 {
                    Err(FrameError::NegativeBodyLength(length as i32))
                } else {
                    Ok(
                        (
                            FrameHeader {
                                flags: s[1],
                                stream: i16_from_be(s.subrange(2, 4)) as i16,
                                opcode,
                                length: length as usize,
                            },
                            s.skip(HEADER_SIZE as int),
                        ),
                    )
                }
            },
        }
    }
}

/// What a reader of a frame makes of the bytes under the cursor: the
/// header, and as many bytes of body as the header says.
pub open spec fn parse_frame(s: Seq<u8>) -> Result<(FrameView, Seq<u8>), FrameError> {
    match parse_header(s) {
        Err(e) => Err(e),
        Ok((header, rest)) => if rest.len() < header.length {
            Err(FrameError::IncompleteBody)
        } else {
            Ok(
                (
                    FrameView {
                        flags: header.flags,
                        stream: header.stream,
                        opcode: header.opcode,
                        body: rest.subrange(0, header.length as int),
                    },
                    rest.skip(header.length as int),
                ),
            )
        },
    }
}

/// A header that was written is read back, whatever follows it.
pub proof fn lemma_header_roundtrip(header: FrameHeader, rest: Seq<u8>)
    requires
        header.length <= i32::MAX,
    ensures
        header_wire(header).len() == HEADER_SIZE,
        parse_header(header_wire(header) + rest) == Ok::<_, FrameError>((header, rest)),
{
    let s = header_wire(header) + rest;
    lemma_i16_be_roundtrip(header.stream as int);
    lemma_i32_be_roundtrip(header.length as int);
    header.opcode.lemma_bytes_roundtrip();
    assert(s.subrange(2, 4) =~= i16_to_be(header.stream as int));
    assert(s.subrange(5, 9) =~= i32_to_be(header.length as int));
    assert(s.skip(HEADER_SIZE as int) =~= rest);
}

/// Decoding a frame that was encoded gives the frame back: every frame
/// whose body is no longer than a header can say is read from its own
/// bytes, and what follows them is left.
pub proof fn lemma_frame_roundtrip(frame: FrameView, rest: Seq<u8>)
    requires
        frame.body.len() <= i32::MAX,
    ensures
        parse_frame(frame_wire(frame) + rest) == Ok::<_, FrameError>((frame, rest)),
{
    let header = FrameHeader {
        flags: frame.flags,
        stream: frame.stream,
        opcode: frame.opcode,
        length: frame.body.len() as usize,
    };
    assert(frame_wire(frame) + rest =~= header_wire(header) + (frame.body + rest));
    lemma_header_roundtrip(header, frame.body + rest);
    assert((frame.body + rest).subrange(0, frame.body.len() as int) =~= frame.body);
    assert((frame.body + rest).skip(frame.body.len() as int) =~= rest);
}

/// Appends a header. The length must be one that a header can say.
pub fn write_header(header: &FrameHeader, buf: &mut Vec<u8>) -> (r: Result<(), FrameError>)
    ensures
        r is Ok <==> header.length <= i32::MAX,
        r is Ok ==> final(buf)@ == old(buf)@ + header_wire(*header),
        r is Err ==> r == Err::<(), _>(FrameError::BodyTooLong(header.length)) && final(buf)@
            == old(buf)@,
{
    if header.length > i32::MAX as usize {
        return Err(FrameError::BodyTooLong(header.length));
    }
    let (version, code) = header.opcode.to_bytes();
    buf.push(version);
    buf.push(header.flags);
    let stream: u16 = if header.stream < 0 {
        (header.stream as i32 + 0x1_0000) as u16
    } else {
        header.stream as u16
    };
    buf.push((stream / 0x100) as u8);
    buf.push((stream % 0x100) as u8);
    buf.push(code);
    write_int(header.length as i32, buf);
    assert(buf@ =~= old(buf)@ + header_wire(*header));
    Ok(())
}

/// Appends a frame. The body must be no longer than a header can say.
pub fn serialize_frame(frame: &Frame, buf: &mut Vec<u8>) -> (r: Result<(), FrameError>)
    ensures
        r is Ok <==> frame@.body.len() <= i32::MAX,
        r is Ok ==> final(buf)@ == old(buf)@ + frame_wire(frame@),
        r is Err ==> r == Err::<(), _>(FrameError::BodyTooLong(frame.body.len())) && final(buf)@
            == old(buf)@,
{
    let header = FrameHeader {
        flags: frame.flags,
        stream: frame.stream,
        opcode: frame.opcode,
        length: frame.body.len(),
    };
    write_header(&header, buf)?;
    buf.extend_from_slice(frame.body.as_slice());
    assert(buf@ =~= old(buf)@ + frame_wire(frame@));
    Ok(())
}

/// Reads a header.
pub fn read_header(buf: &mut &[u8]) -> (r: Result<FrameHeader, FrameError>)
    ensures
        match r {
            Ok(header) => parse_header(old(buf)@) == Ok::<_, FrameError>((header, final(buf)@)),
            Err(e) => parse_header(old(buf)@) == Err::<(FrameHeader, Seq<u8>), _>(e)
                && final(buf)@ == old(buf)@,
        },
{
    let bytes: &[u8] = *buf;
    if bytes.len() < HEADER_SIZE {
        return Err(FrameError::IncompleteHeader);
    }
    let opcode = Opcode::from_bytes(bytes[0], bytes[4])?;
    let flags = bytes[1];
    let (head, rest) = bytes.split_at(HEADER_SIZE);
    let (_, from_stream) = head.split_at(2);
    let (_, from_length) = head.split_at(5);
    assert(from_stream@.subrange(0, 2) =~= bytes@.subrange(2, 4));
    assert(from_length@.subrange(0, 4) =~= bytes@.subrange(5, 9));
    let stream = match be_read_i16(from_stream) {
        Some(stream) => stream,
        None => {
            return Err(FrameError::IncompleteHeader);
        },
    };
    let length = match be_read_i32(from_length) {
        Some(length) => length,
        None => {
            return Err(FrameError::IncompleteHeader);
        },
    };
    if length < 0 {
        return Err(FrameError::NegativeBodyLength(length));
    }
    *buf = rest;
    Ok(FrameHeader { flags, stream, opcode, length: length as usize })
}

/// Reads a frame: the header, and the body that it announces.
pub fn read_frame(buf: &mut &[u8]) -> (r: Result<Frame, FrameError>)
    ensures
        match r {
            Ok(frame) => parse_frame(old(buf)@) == Ok::<_, FrameError>((frame@, final(buf)@)),
            Err(e) => parse_frame(old(buf)@) == Err::<(FrameView, Seq<u8>), _>(e) && final(buf)@
                == old(buf)@,
        },
{
    let mut cur: &[u8] = *buf;
    let header = read_header(&mut cur)?;
    if cur.len() < header.length {
        return Err(FrameError::IncompleteBody);
    }
    let (body, rest) = cur.split_at(header.length);
    let body = vstd::slice::slice_to_vec(body);
    *buf = rest;
    Ok(Frame { flags: header.flags, stream: header.stream, opcode: header.opcode, body })
}

} // verus!
