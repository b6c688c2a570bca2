//! The primitive notations of the protocol: integers in network byte order,
//! and strings and byte strings with their length in front.
//!
//! Every reader takes a cursor, a `&mut &[u8]`, and moves it past what it
//! read. A reader that fails leaves the cursor where it was. What a reader
//! accepts, and what it returns, is given by a `parse_*` function on the
//! sequence of bytes under the cursor; every writer appends what the
//! matching `*_wire` function says.

use byteorder::{BigEndian, ReadBytesExt};
use crate::frame::frame_errors::{ParseError, SerializeError};
use crate::statement::Consistency;
use vstd::prelude::*;
use vstd::utf8::{decode_utf8, encode_utf8, valid_utf8};

verus! {

/// The number that two bytes spell, most significant byte first.
pub open spec fn u16_from_be(b: Seq<u8>) -> int
    recommends
        b.len() == 2,
{
    b[0] as int * 0x100 + b[1] as int
}

/// The number that four bytes spell, most significant byte first.
pub open spec fn u32_from_be(b: Seq<u8>) -> int
    recommends
        b.len() == 4,
{
    ((b[0] as int * 0x100 + b[1] as int) * 0x100 + b[2] as int) * 0x100 + b[3] as int
}

/// The number that eight bytes spell, most significant byte first.
pub open spec fn u64_from_be(b: Seq<u8>) -> int
    recommends
        b.len() == 8,
{
    u32_from_be(b.subrange(0, 4)) * 0x1_0000_0000 + u32_from_be(b.subrange(4, 8))
}

/// Two bytes read as a signed number in two's complement.
pub open spec fn i16_from_be(b: Seq<u8>) -> int
    recommends
        b.len() == 2,
{
    let u = u16_from_be(b);
    if u >= 0x8000 {
        u - 0x1_0000
    } else {
        u
    }
}

/// Four bytes read as a signed number in two's complement.
pub open spec fn i32_from_be(b: Seq<u8>) -> int
    recommends
        b.len() == 4,
{
    let u = u32_from_be(b);
    if u >= 0x8000_0000 {
        u - 0x1_0000_0000
    } else {
        u
    }
}

/// Eight bytes read as a signed number in two's complement.
pub open spec fn i64_from_be(b: Seq<u8>) -> int
    recommends
        b.len() == 8,
{
    let u = u64_from_be(b);
    if u >= 0x8000_0000_0000_0000 {
        u - 0x1_0000_0000_0000_0000
    } else {
        u
    }
}

/// The two bytes of a number below 2^16, most significant byte first.
pub open spec fn u16_to_be(v: int) -> Seq<u8>
    recommends
        0 <= v < 0x1_0000,
{
    seq![(v / 0x100) as u8, (v % 0x100) as u8]
}

/// The four bytes of a number below 2^32, most significant byte first.
pub open spec fn u32_to_be(v: int) -> Seq<u8>
    recommends
        0 <= v < 0x1_0000_0000,
{
    seq![
        (v / 0x100_0000) as u8,
        (v / 0x1_0000 % 0x100) as u8,
        (v / 0x100 % 0x100) as u8,
        (v % 0x100) as u8,
    ]
}

/// The eight bytes of a number below 2^64, most significant byte first.
pub open spec fn u64_to_be(v: int) -> Seq<u8>
    recommends
        0 <= v < 0x1_0000_0000_0000_0000,
{
    u32_to_be(v / 0x1_0000_0000) + u32_to_be(v % 0x1_0000_0000)
}

/// The two bytes of a signed 16-bit number in two's complement.
pub open spec fn i16_to_be(v: int) -> Seq<u8>
    recommends
        -0x8000 <= v < 0x8000,
{
    u16_to_be(
        if v < 0 {
            v + 0x1_0000
        } else {
            v
        },
    )
}

/// The four bytes of a signed 32-bit number in two's complement.
pub open spec fn i32_to_be(v: int) -> Seq<u8>
    recommends
        -0x8000_0000 <= v < 0x8000_0000,
{
    u32_to_be(
        if v < 0 {
            v + 0x1_0000_0000
        } else {
            v
        },
    )
}

/// The eight bytes of a signed 64-bit number in two's complement.
pub open spec fn i64_to_be(v: int) -> Seq<u8>
    recommends
        -0x8000_0000_0000_0000 <= v < 0x8000_0000_0000_0000,
{
    u64_to_be(
        if v < 0 {
            v + 0x1_0000_0000_0000_0000
        } else {
            v
        },
    )
}

/// Reading back the bytes of a 16-bit number gives the number.
pub proof fn lemma_u16_be_roundtrip(v: int)
    requires
        0 <= v < 0x1_0000,
    ensures
        u16_to_be(v).len() == 2,
        u16_from_be(u16_to_be(v)) == v,
{
}

/// Reading back the bytes of a signed 16-bit number gives the number.
pub proof fn lemma_i16_be_roundtrip(v: int)
    requires
        -0x8000 <= v < 0x8000,
    ensures
        i16_to_be(v).len() == 2,
        i16_from_be(i16_to_be(v)) == v,
{
}

/// Reading back the bytes of a 32-bit number gives the number.
pub proof fn lemma_u32_be_roundtrip(v: int)
    requires
        0 <= v < 0x1_0000_0000,
    ensures
        u32_to_be(v).len() == 4,
        u32_from_be(u32_to_be(v)) == v,
{
}

/// Reading back the bytes of a signed 32-bit number gives the number.
pub proof fn lemma_i32_be_roundtrip(v: int)
    requires
        -0x8000_0000 <= v < 0x8000_0000,
    ensures
        i32_to_be(v).len() == 4,
        i32_from_be(i32_to_be(v)) == v,
{
    let u = if v < 0 {
        v + 0x1_0000_0000
    } else {
        v
    };
    lemma_u32_be_roundtrip(u);
}

/// Reading back the bytes of a 64-bit number gives the number.
pub proof fn lemma_u64_be_roundtrip(v: int)
    requires
        0 <= v < 0x1_0000_0000_0000_0000,
    ensures
        u64_to_be(v).len() == 8,
        u64_from_be(u64_to_be(v)) == v,
{
    let hi = v / 0x1_0000_0000;
    let lo = v % 0x1_0000_0000;
    lemma_u32_be_roundtrip(hi);
    lemma_u32_be_roundtrip(lo);
    assert(u64_to_be(v).subrange(0, 4) =~= u32_to_be(hi));
    assert(u64_to_be(v).subrange(4, 8) =~= u32_to_be(lo));
}

/// Reading back the bytes of a signed 64-bit number gives the number.
pub proof fn lemma_i64_be_roundtrip(v: int)
    requires
        -0x8000_0000_0000_0000 <= v < 0x8000_0000_0000_0000,
    ensures
        i64_to_be(v).len() == 8,
        i64_from_be(i64_to_be(v)) == v,
{
    let u = if v < 0 {
        v + 0x1_0000_0000_0000_0000
    } else {
        v
    };
    lemma_u64_be_roundtrip(u);
}

/// `byteorder::ReadBytesExt::read_u16::<BigEndian>` on a byte slice. Not
/// proved: that it fails exactly when fewer than two bytes are there, and
/// otherwise returns the number that the first two bytes spell, most
/// significant byte first.
#[verifier::external_body]
pub(crate) fn be_read_u16(buf: &[u8]) -> (r: Option<u16>)
    ensures
        r is Some <==> buf@.len() >= 2,
        r matches Some(v) ==> v as int == u16_from_be(buf@.subrange(0, 2)),
{
    let mut rest: &[u8] = buf;
    rest.read_u16::<BigEndian>().ok()
}

/// `byteorder::ReadBytesExt::read_i16::<BigEndian>` on a byte slice. Not
/// proved: that it fails exactly when fewer than two bytes are there, and
/// otherwise returns the first two bytes as a signed number, most
/// significant byte first.
#[verifier::external_body]
pub(crate) fn be_read_i16(buf: &[u8]) -> (r: Option<i16>)
    ensures
        r is Some <==> buf@.len() >= 2,
        r matches Some(v) ==> v as int == i16_from_be(buf@.subrange(0, 2)),
{
    let mut rest: &[u8] = buf;
    rest.read_i16::<BigEndian>().ok()
}

/// `byteorder::ReadBytesExt::read_i32::<BigEndian>` on a byte slice. Not
/// proved: that it fails exactly when fewer than four bytes are there, and
/// otherwise returns the first four bytes as a signed number, most
/// significant byte first.
#[verifier::external_body]
pub(crate) fn be_read_i32(buf: &[u8]) -> (r: Option<i32>)
    ensures
        r is Some <==> buf@.len() >= 4,
        r matches Some(v) ==> v as int == i32_from_be(buf@.subrange(0, 4)),
{
    let mut rest: &[u8] = buf;
    rest.read_i32::<BigEndian>().ok()
}

/// `byteorder::ReadBytesExt::read_i64::<BigEndian>` on a byte slice. Not
/// proved: that it fails exactly when fewer than eight bytes are there, and
/// otherwise returns the first eight bytes as a signed number, most
/// significant byte first.
#[verifier::external_body]
pub(crate) fn be_read_i64(buf: &[u8]) -> (r: Option<i64>)
    ensures
        r is Some <==> buf@.len() >= 8,
        r matches Some(v) ==> v as int == i64_from_be(buf@.subrange(0, 8)),
{
    let mut rest: &[u8] = buf;
    rest.read_i64::<BigEndian>().ok()
}

/// `std::str::from_utf8`. Not proved: that it accepts exactly the byte
/// strings that are UTF-8, and returns the text that they encode.
#[verifier::external_body]
pub(crate) fn utf8_to_str(bytes: &[u8]) -> (r: Option<&str>)
    ensures
        r is Some <==> valid_utf8(bytes@),
        r matches Some(s) ==> s@ == decode_utf8(bytes@),
{
    std::str::from_utf8(bytes).ok()
}

/// What a reader of a `[short]` makes of the bytes under the cursor: the
/// number and the bytes that follow it.
pub open spec fn parse_short(s: Seq<u8>) -> Result<(u16, Seq<u8>), ParseError> {
    if s.len() < 2 {
        Err(ParseError::UnexpectedEof)
    } else {
        Ok((u16_from_be(s.subrange(0, 2)) as u16, s.skip(2)))
    }
}

/// What a reader of an `[int]` makes of the bytes under the cursor.
pub open spec fn parse_int(s: Seq<u8>) -> Result<(i32, Seq<u8>), ParseError> {
    if s.len() < 4 {
        Err(ParseError::UnexpectedEof)
    } else {
        Ok((i32_from_be(s.subrange(0, 4)) as i32, s.skip(4)))
    }
}

/// What a reader of a `[long]` makes of the bytes under the cursor.
pub open spec fn parse_long(s: Seq<u8>) -> Result<(i64, Seq<u8>), ParseError> {
    if s.len() < 8 {
        Err(ParseError::UnexpectedEof)
    } else {
        Ok((i64_from_be(s.subrange(0, 8)) as i64, s.skip(8)))
    }
}

/// What a reader of `count` raw bytes makes of the bytes under the cursor.
pub open spec fn parse_raw_bytes(count: int, s: Seq<u8>) -> Result<(Seq<u8>, Seq<u8>), ParseError> {
    if s.len() < count {
        Err(ParseError::UnexpectedEof)
    } else {
        Ok((s.subrange(0, count), s.skip(count)))
    }
}

/// What a reader of a `[string]` makes of the bytes under the cursor: a
/// `[short]` length, then that many bytes of UTF-8.
pub open spec fn parse_string(s: Seq<u8>) -> Result<(Seq<char>, Seq<u8>), ParseError> {
    match parse_short(s) {
        Err(e) => Err(e),
        Ok((len, rest)) => match parse_raw_bytes(len as int, rest) {
            Err(e) => Err(e),
            Ok((raw, rest)) => if valid_utf8(raw) {
                Ok((decode_utf8(raw), rest))
            } else {
                Err(ParseError::InvalidUtf8)
            },
        },
    }
}

/// What a reader of a `[long string]` makes of the bytes under the cursor:
/// an `[int]` length, which must not be negative, then that many bytes of
/// UTF-8.
pub open spec fn parse_long_string(s: Seq<u8>) -> Result<(Seq<char>, Seq<u8>), ParseError> {
    match parse_bytes(s) {
        Err(e) => Err(e),
        Ok((raw, rest)) => if valid_utf8(raw) {
            Ok((decode_utf8(raw), rest))
        } else {
            Err(ParseError::InvalidUtf8)
        },
    }
}

/// What a reader of `[bytes]` that may be null makes of the bytes under the
/// cursor: an `[int]` length, and, unless that is negative, that many bytes.
pub open spec fn parse_bytes_opt(s: Seq<u8>) -> Result<(Option<Seq<u8>>, Seq<u8>), ParseError> {
    match parse_int(s) {
        Err(e) => Err(e),
        Ok((len, rest)) => if len < 0 {
            Ok((None, rest))
        } else {
            match parse_raw_bytes(len as int, rest) {
                Err(e) => Err(e),
                Ok((raw, rest)) => Ok((Some(raw), rest)),
            }
        },
    }
}

/// What a reader of `[bytes]` that must be there makes of the bytes under
/// the cursor: as [`parse_bytes_opt`], but a negative length is an error.
pub open spec fn parse_bytes(s: Seq<u8>) -> Result<(Seq<u8>, Seq<u8>), ParseError> {
    match parse_int(s) {
        Err(e) => Err(e),
        Ok((len, rest)) => if len < 0 {
            Err(ParseError::NegativeLength(len))
        } else {
            parse_raw_bytes(len as int, rest)
        },
    }
}

/// What a reader of `[short bytes]` makes of the bytes under the cursor: a
/// `[short]` length, then that many bytes.
pub open spec fn parse_short_bytes(s: Seq<u8>) -> Result<(Seq<u8>, Seq<u8>), ParseError> {
    match parse_short(s) {
        Err(e) => Err(e),
        Ok((len, rest)) => parse_raw_bytes(len as int, rest),
    }
}

/// Reads a `[short]`: two bytes, as an unsigned number.
pub fn read_short(buf: &mut &[u8]) -> (r: Result<u16, ParseError>)
    ensures
        match r {
            Ok(v) => parse_short(old(buf)@) == Ok::<_, ParseError>((v, final(buf)@)),
            Err(e) => parse_short(old(buf)@) == Err::<(u16, Seq<u8>), _>(e)
                && final(buf)@ == old(buf)@,
        },
{
    match be_read_u16(*buf) {
        Some(v) => {
            let (_, rest) = buf.split_at(2);
            *buf = rest;
            Ok(v)
        },
        None => Err(ParseError::UnexpectedEof),
    }
}

/// Reads an `[int]`: four bytes, as a signed number.
pub fn read_int(buf: &mut &[u8]) -> (r: Result<i32, ParseError>)
    ensures
        match r {
            Ok(v) => parse_int(old(buf)@) == Ok::<_, ParseError>((v, final(buf)@)),
            Err(e) => parse_int(old(buf)@) == Err::<(i32, Seq<u8>), _>(e)
                && final(buf)@ == old(buf)@,
        },
{
    match be_read_i32(*buf) {
        Some(v) => {
            let (_, rest) = buf.split_at(4);
            *buf = rest;
            Ok(v)
        },
        None => Err(ParseError::UnexpectedEof),
    }
}

/// Reads a `[long]`: eight bytes, as a signed number.
pub fn read_long(buf: &mut &[u8]) -> (r: Result<i64, ParseError>)
    ensures
        match r {
            Ok(v) => parse_long(old(buf)@) == Ok::<_, ParseError>((v, final(buf)@)),
            Err(e) => parse_long(old(buf)@) == Err::<(i64, Seq<u8>), _>(e)
                && final(buf)@ == old(buf)@,
        },
{
    match be_read_i64(*buf) {
        Some(v) => {
            let (_, rest) = buf.split_at(8);
            *buf = rest;
            Ok(v)
        },
        None => Err(ParseError::UnexpectedEof),
    }
}

/// Reads `count` bytes as they are.
pub fn read_raw_bytes<'a>(count: usize, buf: &mut &'a [u8]) -> (r: Result<&'a [u8], ParseError>)
    ensures
        match r {
            Ok(v) => parse_raw_bytes(count as int, old(buf)@) == Ok::<_, ParseError>(
                (v@, final(buf)@),
            ),
            Err(e) => parse_raw_bytes(count as int, old(buf)@) == Err::<(Seq<u8>, Seq<u8>), _>(e)
                && final(buf)@ == old(buf)@,
        },
{
    if buf.len() < count {
        return Err(ParseError::UnexpectedEof);
    }
    let (raw, rest) = buf.split_at(count);
    *buf = rest;
    Ok(raw)
}

/// Reads a `[string]`: a `[short]` length and that many bytes of UTF-8.
pub fn read_string<'a>(buf: &mut &'a [u8]) -> (r: Result<&'a str, ParseError>)
    ensures
        match r {
            Ok(v) => parse_string(old(buf)@) == Ok::<_, ParseError>((v@, final(buf)@)),
            Err(e) => parse_string(old(buf)@) == Err::<(Seq<char>, Seq<u8>), _>(e) && final(buf)@
                == old(buf)@,
        },
{
    let mut cur: &[u8] = *buf;
    let len = read_short(&mut cur)?;
    let raw = read_raw_bytes(len as usize, &mut cur)?;
    match utf8_to_str(raw) {
        Some(s) => {
            *buf = cur;
            Ok(s)
        },
        None => Err(ParseError::InvalidUtf8),
    }
}

/// Reads `[bytes]` that may be null: an `[int]` length and, unless it is
/// negative, that many bytes.
pub fn read_bytes_opt<'a>(buf: &mut &'a [u8]) -> (r: Result<Option<&'a [u8]>, ParseError>)
    ensures
        match r {
            Ok(Some(v)) => parse_bytes_opt(old(buf)@) == Ok::<_, ParseError>(
                (Some(v@), final(buf)@),
            ),
            Ok(None) => parse_bytes_opt(old(buf)@) == Ok::<(Option<Seq<u8>>, Seq<u8>), ParseError>(
                (None, final(buf)@),
            ),
            Err(e) => parse_bytes_opt(old(buf)@) == Err::<(Option<Seq<u8>>, Seq<u8>), _>(e)
                && final(buf)@ == old(buf)@,
        },
{
    let mut cur: &[u8] = *buf;
    let len = read_int(&mut cur)?;
    if len < 0 {
        *buf = cur;
        return Ok(None);
    }
    let raw = read_raw_bytes(len as usize, &mut cur)?;
    *buf = cur;
    Ok(Some(raw))
}

/// Reads `[bytes]` that must be there: an `[int]` length, which must not be
/// negative, and that many bytes.
pub fn read_bytes<'a>(buf: &mut &'a [u8]) -> (r: Result<&'a [u8], ParseError>)
    ensures
        match r {
            Ok(v) => parse_bytes(old(buf)@) == Ok::<_, ParseError>((v@, final(buf)@)),
            Err(e) => parse_bytes(old(buf)@) == Err::<(Seq<u8>, Seq<u8>), _>(e) && final(buf)@
                == old(buf)@,
        },
{
    let mut cur: &[u8] = *buf;
    let len = read_int(&mut cur)?;
    if len < 0 {
        return Err(ParseError::NegativeLength(len));
    }
    let raw = read_raw_bytes(len as usize, &mut cur)?;
    *buf = cur;
    Ok(raw)
}

/// Reads `[short bytes]`: a `[short]` length and that many bytes.
pub fn read_short_bytes<'a>(buf: &mut &'a [u8]) -> (r: Result<&'a [u8], ParseError>)
    ensures
        match r {
            Ok(v) => parse_short_bytes(old(buf)@) == Ok::<_, ParseError>((v@, final(buf)@)),
            Err(e) => parse_short_bytes(old(buf)@) == Err::<(Seq<u8>, Seq<u8>), _>(e)
                && final(buf)@ == old(buf)@,
        },
{
    let mut cur: &[u8] = *buf;
    let len = read_short(&mut cur)?;
    let raw = read_raw_bytes(len as usize, &mut cur)?;
    *buf = cur;
    Ok(raw)
}

/// Reads a `[long string]`: an `[int]` length, which must not be negative,
/// and that many bytes of UTF-8.
pub fn read_long_string<'a>(buf: &mut &'a [u8]) -> (r: Result<&'a str, ParseError>)
    ensures
        match r {
            Ok(v) => parse_long_string(old(buf)@) == Ok::<_, ParseError>((v@, final(buf)@)),
            Err(e) => parse_long_string(old(buf)@) == Err::<(Seq<char>, Seq<u8>), _>(e)
                && final(buf)@ == old(buf)@,
        },
{
    let mut cur: &[u8] = *buf;
    let raw = read_bytes(&mut cur)?;
    match utf8_to_str(raw) {
        Some(s) => {
            *buf = cur;
            Ok(s)
        },
        None => Err(ParseError::InvalidUtf8),
    }
}

/// A `[short]` on the wire.
pub open spec fn short_wire(v: u16) -> Seq<u8> {
    u16_to_be(v as int)
}

/// An `[int]` on the wire.
pub open spec fn int_wire(v: i32) -> Seq<u8> {
    i32_to_be(v as int)
}

/// A `[long]` on the wire.
pub open spec fn long_wire(v: i64) -> Seq<u8> {
    i64_to_be(v as int)
}

/// A `[string]` on the wire: its length in bytes as a `[short]`, then its
/// UTF-8.
pub open spec fn string_wire(s: Seq<char>) -> Seq<u8>
    recommends
        encode_utf8(s).len() <= u16::MAX,
{
    short_wire(encode_utf8(s).len() as u16) + encode_utf8(s)
}

/// A `[long string]` on the wire: its length in bytes as an `[int]`, then
/// its UTF-8.
pub open spec fn long_string_wire(s: Seq<char>) -> Seq<u8>
    recommends
        encode_utf8(s).len() <= i32::MAX,
{
    bytes_wire(encode_utf8(s))
}

/// `[bytes]` on the wire: the length as an `[int]`, then the bytes.
pub open spec fn bytes_wire(b: Seq<u8>) -> Seq<u8>
    recommends
        b.len() <= i32::MAX,
{
    int_wire(b.len() as i32) + b
}

/// `[bytes]` that may be null on the wire: null is the length -1 and nothing
/// after it.
pub open spec fn bytes_opt_wire(b: Option<Seq<u8>>) -> Seq<u8>
    recommends
        b matches Some(raw) ==> raw.len() <= i32::MAX,
{
    match b {
        None => int_wire(-1i32),
        Some(raw) => bytes_wire(raw),
    }
}

/// `[short bytes]` on the wire: the length as a `[short]`, then the bytes.
pub open spec fn short_bytes_wire(b: Seq<u8>) -> Seq<u8>
    recommends
        b.len() <= u16::MAX,
{
    short_wire(b.len() as u16) + b
}

/// Appends a `[short]`.
pub fn write_short(v: u16, buf: &mut Vec<u8>)
    ensures
        final(buf)@ == old(buf)@ + short_wire(v),
{
    buf.push((v / 0x100) as u8);
    buf.push((v % 0x100) as u8);
    assert(buf@ =~= old(buf)@ + short_wire(v));
}

/// Appends an `[int]`.
pub fn write_int(v: i32, buf: &mut Vec<u8>)
    ensures
        final(buf)@ == old(buf)@ + int_wire(v),
{
    let u: u32 = if v < 0 {
        (v as i64 + 0x1_0000_0000) as u32
    } else {
        v as u32
    };
    write_u32(u, buf);
}

/// Appends the four bytes of `u`, most significant byte first.
fn write_u32(u: u32, buf: &mut Vec<u8>)
    ensures
        final(buf)@ == old(buf)@ + u32_to_be(u as int),
{
    buf.push((u / 0x100_0000) as u8);
    buf.push((u / 0x1_0000 % 0x100) as u8);
    buf.push((u / 0x100 % 0x100) as u8);
    buf.push((u % 0x100) as u8);
    assert(buf@ =~= old(buf)@ + u32_to_be(u as int));
}

/// Appends a `[long]`.
pub fn write_long(v: i64, buf: &mut Vec<u8>)
    ensures
        final(buf)@ == old(buf)@ + long_wire(v),
{
    let u: u64 = if v < 0 {
        (v as i128 + 0x1_0000_0000_0000_0000) as u64
    } else {
        v as u64
    };
    write_u32((u / 0x1_0000_0000) as u32, buf);
    write_u32((u % 0x1_0000_0000) as u32, buf);
    assert(buf@ =~= old(buf)@ + long_wire(v));
}

/// Appends a `[string]`, unless its UTF-8 is longer than a `[short]` can say.
pub fn write_string(s: &str, buf: &mut Vec<u8>) -> (r: Result<(), SerializeError>)
    ensures
        r is Ok <==> encode_utf8(s@).len() <= u16::MAX,
        r is Ok ==> final(buf)@ == old(buf)@ + string_wire(s@),
        r is Err ==> r == Err::<(), _>(SerializeError::ShortLengthOverflow) && final(buf)@ == old(
            buf)@,
{
    let raw = s.as_bytes();
    if raw.len() > u16::MAX as usize {
        return Err(SerializeError::ShortLengthOverflow);
    }
    write_short(raw.len() as u16, buf);
    buf.extend_from_slice(raw);
    assert(buf@ =~= old(buf)@ + string_wire(s@));
    Ok(())
}

/// Appends `[bytes]`, unless there are more of them than an `[int]` can say.
pub fn write_bytes(b: &[u8], buf: &mut Vec<u8>) -> (r: Result<(), SerializeError>)
    ensures
        r is Ok <==> b@.len() <= i32::MAX,
        r is Ok ==> final(buf)@ == old(buf)@ + bytes_wire(b@),
        r is Err ==> r == Err::<(), _>(SerializeError::IntLengthOverflow) && final(buf)@ == old(
            buf)@,
{
    if b.len() > i32::MAX as usize {
        return Err(SerializeError::IntLengthOverflow);
    }
    write_int(b.len() as i32, buf);
    buf.extend_from_slice(b);
    assert(buf@ =~= old(buf)@ + bytes_wire(b@));
    Ok(())
}

/// Appends `[bytes]` that may be null.
pub fn write_bytes_opt(b: Option<&[u8]>, buf: &mut Vec<u8>) -> (r: Result<(), SerializeError>)
    ensures
        r is Ok <==> (b matches Some(raw) ==> raw@.len() <= i32::MAX),
        r is Ok ==> final(buf)@ == old(buf)@ + bytes_opt_wire(
            match b {
                Some(raw) => Some(raw@),
                None => None,
            },
        ),
        r is Err ==> r == Err::<(), _>(SerializeError::IntLengthOverflow) && final(buf)@ == old(
            buf)@,
{
    match b {
        Some(raw) => write_bytes(raw, buf),
        None => {
            write_int(-1, buf);
            Ok(())
        },
    }
}

/// Appends `[short bytes]`, unless there are more of them than a `[short]`
/// can say.
pub fn write_short_bytes(b: &[u8], buf: &mut Vec<u8>) -> (r: Result<(), SerializeError>)
    ensures
        r is Ok <==> b@.len() <= u16::MAX,
        r is Ok ==> final(buf)@ == old(buf)@ + short_bytes_wire(b@),
        r is Err ==> r == Err::<(), _>(SerializeError::ShortLengthOverflow) && final(buf)@ == old(
            buf)@,
{
    if b.len() > u16::MAX as usize {
        return Err(SerializeError::ShortLengthOverflow);
    }
    write_short(b.len() as u16, buf);
    buf.extend_from_slice(b);
    assert(buf@ =~= old(buf)@ + short_bytes_wire(b@));
    Ok(())
}

/// Appends a `[long string]`, unless its UTF-8 is longer than an `[int]` can
/// say.
pub fn write_long_string(s: &str, buf: &mut Vec<u8>) -> (r: Result<(), SerializeError>)
    ensures
        r is Ok <==> encode_utf8(s@).len() <= i32::MAX,
        r is Ok ==> final(buf)@ == old(buf)@ + long_string_wire(s@),
        r is Err ==> r == Err::<(), _>(SerializeError::IntLengthOverflow) && final(buf)@ == old(
            buf)@,
{
    write_bytes(s.as_bytes(), buf)
}

/// A `[short]` that was written is read back, whatever follows it.
pub proof fn lemma_parse_short_wire(v: u16, rest: Seq<u8>)
    ensures
        parse_short(short_wire(v) + rest) == Ok::<_, ParseError>((v, rest)),
{
    let s = short_wire(v) + rest;
    assert(s.subrange(0, 2) =~= short_wire(v));
    assert(s.skip(2) =~= rest);
    lemma_u16_be_roundtrip(v as int);
}

/// An `[int]` that was written is read back, whatever follows it.
pub proof fn lemma_parse_int_wire(v: i32, rest: Seq<u8>)
    ensures
        parse_int(int_wire(v) + rest) == Ok::<_, ParseError>((v, rest)),
{
    let s = int_wire(v) + rest;
    lemma_i32_be_roundtrip(v as int);
    assert(s.subrange(0, 4) =~= int_wire(v));
    assert(s.skip(4) =~= rest);
}

/// A `[long]` that was written is read back, whatever follows it.
pub proof fn lemma_parse_long_wire(v: i64, rest: Seq<u8>)
    ensures
        parse_long(long_wire(v) + rest) == Ok::<_, ParseError>((v, rest)),
{
    let s = long_wire(v) + rest;
    lemma_i64_be_roundtrip(v as int);
    assert(s.subrange(0, 8) =~= long_wire(v));
    assert(s.skip(8) =~= rest);
}

/// Raw bytes are read back, whatever follows them.
pub proof fn lemma_parse_raw_bytes_wire(b: Seq<u8>, rest: Seq<u8>)
    ensures
        parse_raw_bytes(b.len() as int, b + rest) == Ok::<_, ParseError>((b, rest)),
{
    let s = b + rest;
    assert(s.subrange(0, b.len() as int) =~= b);
    assert(s.skip(b.len() as int) =~= rest);
}

/// A `[string]` that was written is read back, whatever follows it.
pub proof fn lemma_parse_string_wire(s: Seq<char>, rest: Seq<u8>)
    requires
        encode_utf8(s).len() <= u16::MAX,
    ensures
        parse_string(string_wire(s) + rest) == Ok::<_, ParseError>((s, rest)),
{
    broadcast use vstd::utf8::encode_utf8_valid_utf8, vstd::utf8::encode_utf8_decode_utf8;

    let raw = encode_utf8(s);
    let len = raw.len() as u16;
    assert(string_wire(s) + rest =~= short_wire(len) + (raw + rest));
    lemma_parse_short_wire(len, raw + rest);
    lemma_parse_raw_bytes_wire(raw, rest);
}

/// `[bytes]` that were written are read back, whatever follows them.
pub proof fn lemma_parse_bytes_wire(b: Seq<u8>, rest: Seq<u8>)
    requires
        b.len() <= i32::MAX,
    ensures
        parse_bytes(bytes_wire(b) + rest) == Ok::<_, ParseError>((b, rest)),
        parse_bytes_opt(bytes_wire(b) + rest) == Ok::<_, ParseError>((Some(b), rest)),
{
    let len = b.len() as i32;
    assert(bytes_wire(b) + rest =~= int_wire(len) + (b + rest));
    lemma_parse_int_wire(len, b + rest);
    lemma_parse_raw_bytes_wire(b, rest);
}

/// `[bytes]` that may be null are read back as they were written.
pub proof fn lemma_parse_bytes_opt_wire(b: Option<Seq<u8>>, rest: Seq<u8>)
    requires
        b matches Some(raw) ==> raw.len() <= i32::MAX,
    ensures
        parse_bytes_opt(bytes_opt_wire(b) + rest) == Ok::<_, ParseError>((b, rest)),
{
    match b {
        Some(raw) => lemma_parse_bytes_wire(raw, rest),
        None => lemma_parse_int_wire(-1i32, rest),
    }
}

/// `[short bytes]` that were written are read back, whatever follows them.
pub proof fn lemma_parse_short_bytes_wire(b: Seq<u8>, rest: Seq<u8>)
    requires
        b.len() <= u16::MAX,
    ensures
        parse_short_bytes(short_bytes_wire(b) + rest) == Ok::<_, ParseError>((b, rest)),
{
    let len = b.len() as u16;
    assert(short_bytes_wire(b) + rest =~= short_wire(len) + (b + rest));
    lemma_parse_short_wire(len, b + rest);
    lemma_parse_raw_bytes_wire(b, rest);
}

/// A `[long string]` that was written is read back, whatever follows it.
pub proof fn lemma_parse_long_string_wire(s: Seq<char>, rest: Seq<u8>)
    requires
        encode_utf8(s).len() <= i32::MAX,
    ensures
        parse_long_string(long_string_wire(s) + rest) == Ok::<_, ParseError>((s, rest)),
{
    broadcast use vstd::utf8::encode_utf8_valid_utf8, vstd::utf8::encode_utf8_decode_utf8;

    lemma_parse_bytes_wire(encode_utf8(s), rest);
}

/// The outcome of reading further items after `done`: the items join those
/// already read, an error stays what it is.
pub open spec fn prepend<T>(done: Seq<T>, more: Result<(Seq<T>, Seq<u8>), ParseError>) -> Result<
    (Seq<T>, Seq<u8>),
    ParseError,
> {
    match more {
        Ok((items, rest)) => Ok((done + items, rest)),
        Err(e) => Err(e),
    }
}

/// Nothing read yet changes nothing.
pub proof fn lemma_prepend_empty<T>(more: Result<(Seq<T>, Seq<u8>), ParseError>)
    ensures
        prepend(Seq::empty(), more) == more,
{
    if let Ok((items, rest)) = more {
        assert(Seq::<T>::empty() + items =~= items);
    }
}

/// Reading one item and then the others is reading them all.
pub proof fn lemma_prepend_push<T>(
    done: Seq<T>,
    first: T,
    more: Result<(Seq<T>, Seq<u8>), ParseError>,
)
    ensures
        prepend(done, prepend(seq![first], more)) == prepend(done.push(first), more),
{
    if let Ok((items, rest)) = more {
        assert(done + (seq![first] + items) =~= done.push(first) + items);
    }
}

/// When nothing is left to read, the items read are the result.
pub proof fn lemma_prepend_none_left<T>(done: Seq<T>, rest: Seq<u8>)
    ensures
        prepend(done, Ok::<_, ParseError>((Seq::<T>::empty(), rest))) == Ok::<_, ParseError>(
            (done, rest),
        ),
{
    assert(done + Seq::<T>::empty() =~= done);
}

/// What a reader of one byte makes of the bytes under the cursor.
pub open spec fn parse_byte(s: Seq<u8>) -> Result<(u8, Seq<u8>), ParseError> {
    if s.len() < 1 {
        Err(ParseError::UnexpectedEof)
    } else {
        Ok((s[0], s.skip(1)))
    }
}

/// Reads one byte.
pub fn read_byte(buf: &mut &[u8]) -> (r: Result<u8, ParseError>)
    ensures
        match r {
            Ok(v) => parse_byte(old(buf)@) == Ok::<_, ParseError>((v, final(buf)@)),
            Err(e) => parse_byte(old(buf)@) == Err::<(u8, Seq<u8>), _>(e) && final(buf)@ == old(
                buf)@,
        },
{
    if buf.len() < 1 {
        return Err(ParseError::UnexpectedEof);
    }
    let b = buf[0];
    let (_, rest) = buf.split_at(1);
    *buf = rest;
    Ok(b)
}

/// What a reader of a `[consistency]` makes of the bytes under the cursor:
/// a `[short]` that stands for a consistency level.
pub open spec fn parse_consistency(s: Seq<u8>) -> Result<(Consistency, Seq<u8>), ParseError> {
    match parse_short(s) {
        Err(e) => Err(e),
        Ok((code, rest)) => match Consistency::of_code(code) {
            Some(consistency) => Ok((consistency, rest)),
            None => Err(ParseError::UnknownConsistency(code)),
        },
    }
}

/// Reads a `[consistency]`.
pub fn read_consistency(buf: &mut &[u8]) -> (r: Result<Consistency, ParseError>)
    ensures
        match r {
            Ok(v) => parse_consistency(old(buf)@) == Ok::<_, ParseError>((v, final(buf)@)),
            Err(e) => parse_consistency(old(buf)@) == Err::<(Consistency, Seq<u8>), _>(e)
                && final(buf)@ == old(buf)@,
        },
{
    let mut cur: &[u8] = *buf;
    let code = read_short(&mut cur)?;
    match Consistency::from_u16(code) {
        Some(consistency) => {
            *buf = cur;
            Ok(consistency)
        },
        None => Err(ParseError::UnknownConsistency(code)),
    }
}

/// Appends a `[consistency]`.
pub fn write_consistency(c: Consistency, buf: &mut Vec<u8>)
    ensures
        final(buf)@ == old(buf)@ + short_wire(c.code()),
{
    write_short(c.to_u16(), buf);
}

/// A `[consistency]` that was written is read back.
pub proof fn lemma_parse_consistency_wire(c: Consistency, rest: Seq<u8>)
    ensures
        parse_consistency(short_wire(c.code()) + rest) == Ok::<_, ParseError>((c, rest)),
{
    lemma_parse_short_wire(c.code(), rest);
    c.lemma_code_roundtrip();
}

/// What a reader of `count` strings, each a `[string]`, makes of the bytes
/// under the cursor.
pub open spec fn parse_strings(count: nat, s: Seq<u8>) -> Result<
    (Seq<Seq<char>>, Seq<u8>),
    ParseError,
>
    decreases count,
{
    if count == 0 {
        Ok((Seq::empty(), s))
    } else {
        match parse_string(s) {
            Err(e) => Err(e),
            Ok((first, rest)) => prepend(seq![first], parse_strings((count - 1) as nat, rest)),
        }
    }
}

/// What a reader of a `[string list]` makes of the bytes under the cursor:
/// a `[short]` count, and that many strings.
pub open spec fn parse_string_list(s: Seq<u8>) -> Result<(Seq<Seq<char>>, Seq<u8>), ParseError> {
    match parse_short(s) {
        Err(e) => Err(e),
        Ok((count, rest)) => parse_strings(count as nat, rest),
    }
}

/// Reads a `[string list]`.
pub fn read_string_list(buf: &mut &[u8]) -> (r: Result<Vec<String>, ParseError>)
    ensures
        match r {
            Ok(v) => parse_string_list(old(buf)@) == Ok::<_, ParseError>(
                (v.deep_view(), final(buf)@),
            ),
            Err(e) => parse_string_list(old(buf)@) == Err::<(Seq<Seq<char>>, Seq<u8>), _>(e)
                && final(buf)@ == old(buf)@,
        },
{
    let mut cur: &[u8] = *buf;
    let count = read_short(&mut cur)?;
    let ghost after_count = cur@;
    let mut list: Vec<String> = Vec::new();
    let mut i: u16 = 0;
    proof {
        lemma_prepend_empty(parse_strings(count as nat, cur@));
        assert(list.deep_view() =~= Seq::empty());
    }
    while i < count
        invariant
            i <= count,
            buf@ == old(buf)@,
            parse_short(old(buf)@) == Ok::<_, ParseError>((count, after_count)),
            parse_strings(count as nat, after_count) == prepend(
                list.deep_view(),
                parse_strings((count - i) as nat, cur@),
            ),
        decreases count - i,
    {
        let ghost done = list.deep_view();
        let item = read_string(&mut cur)?.to_owned();
        let ghost text = item@;
        list.push(item);
        i += 1;
        proof {
            assert(list.deep_view() =~= done.push(text));
            lemma_prepend_push(done, text, parse_strings((count - i) as nat, cur@));
        }
    }
    proof {
        lemma_prepend_none_left(list.deep_view(), cur@);
    }
    *buf = cur;
    Ok(list)
}

/// What a reader of `count` pairs of strings makes of the bytes under the
/// cursor.
pub open spec fn parse_string_pairs(count: nat, s: Seq<u8>) -> Result<
    (Seq<(Seq<char>, Seq<char>)>, Seq<u8>),
    ParseError,
>
    decreases count,
{
    if count == 0 {
        Ok((Seq::empty(), s))
    } else {
        match parse_string(s) {
            Err(e) => Err(e),
            Ok((key, rest)) => match parse_string(rest) {
                Err(e) => Err(e),
                Ok((value, rest)) => prepend(
                    seq![(key, value)],
                    parse_string_pairs((count - 1) as nat, rest),
                ),
            },
        }
    }
}

/// What a reader of a `[string map]` makes of the bytes under the cursor: a
/// `[short]` count, and that many pairs of a key and a value, each a
/// `[string]`. The pairs are kept in their order.
pub open spec fn parse_string_map(s: Seq<u8>) -> Result<
    (Seq<(Seq<char>, Seq<char>)>, Seq<u8>),
    ParseError,
> {
    match parse_short(s) {
        Err(e) => Err(e),
        Ok((count, rest)) => parse_string_pairs(count as nat, rest),
    }
}

/// Reads a `[string map]`, as the list of its pairs.
pub fn read_string_map(buf: &mut &[u8]) -> (r: Result<Vec<(String, String)>, ParseError>)
    ensures
        match r {
            Ok(v) => parse_string_map(old(buf)@) == Ok::<_, ParseError>(
                (v.deep_view(), final(buf)@),
            ),
            Err(e) => parse_string_map(old(buf)@) == Err::<
                (Seq<(Seq<char>, Seq<char>)>, Seq<u8>),
                _,
            >(e) && final(buf)@ == old(buf)@,
        },
{
    let mut cur: &[u8] = *buf;
    let count = read_short(&mut cur)?;
    let ghost after_count = cur@;
    let mut pairs: Vec<(String, String)> = Vec::new();
    let mut i: u16 = 0;
    proof {
        lemma_prepend_empty(parse_string_pairs(count as nat, cur@));
        assert(pairs.deep_view() =~= Seq::empty());
    }
    while i < count
        invariant
            i <= count,
            buf@ == old(buf)@,
            parse_short(old(buf)@) == Ok::<_, ParseError>((count, after_count)),
            parse_string_pairs(count as nat, after_count) == prepend(
                pairs.deep_view(),
                parse_string_pairs((count - i) as nat, cur@),
            ),
        decreases count - i,
    {
        let ghost done = pairs.deep_view();
        let key = read_string(&mut cur)?.to_owned();
        let value = read_string(&mut cur)?.to_owned();
        let ghost pair = (key@, value@);
        pairs.push((key, value));
        i += 1;
        proof {
            assert(pairs.deep_view() =~= done.push(pair));
            lemma_prepend_push(done, pair, parse_string_pairs((count - i) as nat, cur@));
        }
    }
    proof {
        lemma_prepend_none_left(pairs.deep_view(), cur@);
    }
    *buf = cur;
    Ok(pairs)
}

/// What a reader of `count` pairs of a string and a list of strings makes of
/// the bytes under the cursor.
pub open spec fn parse_string_list_pairs(count: nat, s: Seq<u8>) -> Result<
    (Seq<(Seq<char>, Seq<Seq<char>>)>, Seq<u8>),
    ParseError,
>
    decreases count,
{
    if count == 0 {
        Ok((Seq::empty(), s))
    } else {
        match parse_string(s) {
            Err(e) => Err(e),
            Ok((key, rest)) => match parse_string_list(rest) {
                Err(e) => Err(e),
                Ok((values, rest)) => prepend(
                    seq![(key, values)],
                    parse_string_list_pairs((count - 1) as nat, rest),
                ),
            },
        }
    }
}

/// What a reader of a `[string multimap]` makes of the bytes under the
/// cursor: a `[short]` count, and that many pairs of a key, a `[string]`,
/// and its values, a `[string list]`. The pairs are kept in their order.
pub open spec fn parse_string_multimap(s: Seq<u8>) -> Result<
    (Seq<(Seq<char>, Seq<Seq<char>>)>, Seq<u8>),
    ParseError,
> {
    match parse_short(s) {
        Err(e) => Err(e),
        Ok((count, rest)) => parse_string_list_pairs(count as nat, rest),
    }
}

/// Reads a `[string multimap]`, as the list of its pairs.
pub fn read_string_multimap(buf: &mut &[u8]) -> (r: Result<Vec<(String, Vec<String>)>, ParseError>)
    ensures
        match r {
            Ok(v) => parse_string_multimap(old(buf)@) == Ok::<_, ParseError>(
                (v.deep_view(), final(buf)@),
            ),
            Err(e) => parse_string_multimap(old(buf)@) == Err::<
                (Seq<(Seq<char>, Seq<Seq<char>>)>, Seq<u8>),
                _,
            >(e) && final(buf)@ == old(buf)@,
        },
{
    let mut cur: &[u8] = *buf;
    let count = read_short(&mut cur)?;
    let ghost after_count = cur@;
    let mut pairs: Vec<(String, Vec<String>)> = Vec::new();
    let mut i: u16 = 0;
    proof {
        lemma_prepend_empty(parse_string_list_pairs(count as nat, cur@));
        assert(pairs.deep_view() =~= Seq::empty());
    }
    while i < count
        invariant
            i <= count,
            buf@ == old(buf)@,
            parse_short(old(buf)@) == Ok::<_, ParseError>((count, after_count)),
            parse_string_list_pairs(count as nat, after_count) == prepend(
                pairs.deep_view(),
                parse_string_list_pairs((count - i) as nat, cur@),
            ),
        decreases count - i,
    {
        let ghost done = pairs.deep_view();
        let key = read_string(&mut cur)?.to_owned();
        let values = read_string_list(&mut cur)?;
        let ghost pair = (key@, values.deep_view());
        pairs.push((key, values));
        i += 1;
        proof {
            assert(pairs.deep_view() =~= done.push(pair));
            lemma_prepend_push(done, pair, parse_string_list_pairs((count - i) as nat, cur@));
        }
    }
    proof {
        lemma_prepend_none_left(pairs.deep_view(), cur@);
    }
    *buf = cur;
    Ok(pairs)
}

/// Strings on the wire, one after the other, each as a `[string]`.
pub open spec fn strings_wire(list: Seq<Seq<char>>) -> Seq<u8>
    decreases list.len(),
{
    if list.len() == 0 {
        Seq::empty()
    } else {
        strings_wire(list.drop_last()) + string_wire(list.last())
    }
}

/// A `[string list]` on the wire: the number of strings as a `[short]`, and
/// the strings.
pub open spec fn string_list_wire(list: Seq<Seq<char>>) -> Seq<u8>
    recommends
        list.len() <= u16::MAX,
{
    short_wire(list.len() as u16) + strings_wire(list)
}

/// Every string of the list fits a `[string]`.
pub open spec fn strings_fit(list: Seq<Seq<char>>) -> bool {
    forall|i: int| 0 <= i < list.len() ==> encode_utf8(#[trigger] list[i]).len() <= u16::MAX
}

/// Appends a `[string list]`. Fails, and appends nothing, when the list has
/// more strings, or a string more bytes, than a `[short]` can say.
pub fn write_string_list(list: &Vec<String>, buf: &mut Vec<u8>) -> (r: Result<(), SerializeError>)
    ensures
        r is Ok <==> list@.len() <= u16::MAX && strings_fit(list.deep_view()),
        r is Ok ==> final(buf)@ == old(buf)@ + string_list_wire(list.deep_view()),
        r is Err ==> r == Err::<(), _>(SerializeError::ShortLengthOverflow) && final(buf)@ == old(
            buf)@,
{
    let start = buf.len();
    if list.len() > u16::MAX as usize {
        return Err(SerializeError::ShortLengthOverflow);
    }
    write_short(list.len() as u16, buf);
    let ghost views = list.deep_view();
    let mut i: usize = 0;
    assert(views.take(0) =~= Seq::<Seq<char>>::empty());
    assert(buf@ =~= old(buf)@ + short_wire(list.len() as u16) + strings_wire(views.take(0)));
    while i < list.len()
        invariant
            i <= list@.len() <= u16::MAX,
            views == list.deep_view(),
            start == old(buf)@.len(),
            buf@ == old(buf)@ + short_wire(list@.len() as u16) + strings_wire(views.take(i as int)),
            strings_fit(views.take(i as int)),
        decreases list@.len() - i,
    {
        let written = write_string(list[i].as_str(), buf);
        if written.is_err() {
            buf.truncate(start);
            assert(buf@ =~= old(buf)@);
            assert(encode_utf8(views[i as int]).len() > u16::MAX);
            return Err(SerializeError::ShortLengthOverflow);
        }
        proof {
            assert(views.take(i + 1).drop_last() =~= views.take(i as int));
            assert(views.take(i + 1).last() == views[i as int]);
            assert forall|j: int| 0 <= j < i + 1 implies encode_utf8(
                #[trigger] views.take(i + 1)[j],
            ).len() <= u16::MAX by {
                if j < i {
                    assert(views.take(i + 1)[j] == views.take(i as int)[j]);
                }
            }
        }
        i += 1;
    }
    assert(views.take(i as int) =~= views);
    Ok(())
}

/// The strings of a list are read back one by one, whatever follows them.
pub proof fn lemma_parse_strings_wire(list: Seq<Seq<char>>, rest: Seq<u8>)
    requires
        strings_fit(list),
    ensures
        parse_strings(list.len(), strings_wire(list) + rest) == Ok::<_, ParseError>((list, rest)),
    decreases list.len(),
{
    if list.len() == 0 {
        assert(strings_wire(list) + rest =~= rest);
        assert(list =~= Seq::empty());
    } else {
        let front = list.drop_last();
        let last = list.last();
        assert(strings_fit(front)) by {
            assert forall|i: int| 0 <= i < front.len() implies encode_utf8(
                #[trigger] front[i],
            ).len() <= u16::MAX by {
                assert(front[i] == list[i]);
            }
        }
        assert(strings_wire(list) + rest =~= strings_wire(front) + (string_wire(last) + rest));
        lemma_parse_strings_wire(front, string_wire(last) + rest);
        lemma_parse_string_wire(last, rest);
        lemma_parse_strings_more(front.len(), strings_wire(front) + (string_wire(last) + rest));
        assert(front + seq![last] =~= list);
        assert(front.push(last) =~= list);
    }
}

/// Reading one string more reads what was read before, and the next
/// string after it.
pub proof fn lemma_parse_strings_more(count: nat, s: Seq<u8>)
    ensures
        parse_strings(count + 1, s) == (match parse_strings(count, s) {
            Err(e) => Err(e),
            Ok((list, rest)) => match parse_string(rest) {
                Err(e) => Err(e),
                Ok((last, rest)) => Ok((list.push(last), rest)),
            },
        }),
    decreases count,
{
    reveal_with_fuel(parse_strings, 3);
    if count == 0 {
        match parse_string(s) {
            Ok((first, rest)) => {
                assert(seq![first] + Seq::<Seq<char>>::empty() =~= Seq::<Seq<char>>::empty().push(
                    first,
                ));
            },
            Err(_) => {},
        }
    } else {
        match parse_string(s) {
            Ok((first, after_first)) => {
                lemma_parse_strings_more((count - 1) as nat, after_first);
                match parse_strings((count - 1) as nat, after_first) {
                    Ok((list, rest)) => {
                        match parse_string(rest) {
                            Ok((last, _)) => {
                                assert(seq![first] + list.push(last) =~= (seq![first] + list).push(
                                    last,
                                ));
                            },
                            Err(_) => {},
                        }
                    },
                    Err(_) => {},
                }
            },
            Err(_) => {},
        }
    }
}

/// A `[string list]` that was written is read back, whatever follows it.
pub proof fn lemma_parse_string_list_wire(list: Seq<Seq<char>>, rest: Seq<u8>)
    requires
        list.len() <= u16::MAX,
        strings_fit(list),
    ensures
        parse_string_list(string_list_wire(list) + rest) == Ok::<_, ParseError>((list, rest)),
{
    assert(string_list_wire(list) + rest =~= short_wire(list.len() as u16) + (strings_wire(list)
        + rest));
    lemma_parse_short_wire(list.len() as u16, strings_wire(list) + rest);
    lemma_parse_strings_wire(list, rest);
}

/// Pairs of strings on the wire, one after the other, each string as a
/// `[string]`.
pub open spec fn string_pairs_wire(pairs: Seq<(Seq<char>, Seq<char>)>) -> Seq<u8>
    decreases pairs.len(),
{
    if pairs.len() == 0 {
        Seq::empty()
    } else {
        string_pairs_wire(pairs.drop_last()) + string_wire(pairs.last().0) + string_wire(
            pairs.last().1,
        )
    }
}

/// A `[string map]` on the wire: the number of pairs as a `[short]`, and
/// the pairs.
pub open spec fn string_map_wire(pairs: Seq<(Seq<char>, Seq<char>)>) -> Seq<u8>
    recommends
        pairs.len() <= u16::MAX,
{
    short_wire(pairs.len() as u16) + string_pairs_wire(pairs)
}

/// Every key and every value fits a `[string]`.
pub open spec fn string_pairs_fit(pairs: Seq<(Seq<char>, Seq<char>)>) -> bool {
    forall|i: int|
        0 <= i < pairs.len() ==> encode_utf8((#[trigger] pairs[i]).0).len() <= u16::MAX
            && encode_utf8(pairs[i].1).len() <= u16::MAX
}

/// Appends a `[string map]`, given as the list of its pairs. Fails, and
/// appends nothing, when there are more pairs, or a string has more bytes,
/// than a `[short]` can say.
pub fn write_string_map(pairs: &Vec<(String, String)>, buf: &mut Vec<u8>) -> (r: Result<
    (),
    SerializeError,
>)
    ensures
        r is Ok <==> pairs@.len() <= u16::MAX && string_pairs_fit(pairs.deep_view()),
        r is Ok ==> final(buf)@ == old(buf)@ + string_map_wire(pairs.deep_view()),
        r is Err ==> r == Err::<(), _>(SerializeError::ShortLengthOverflow) && final(buf)@ == old(
            buf)@,
{
    let start = buf.len();
    if pairs.len() > u16::MAX as usize {
        return Err(SerializeError::ShortLengthOverflow);
    }
    write_short(pairs.len() as u16, buf);
    let ghost views = pairs.deep_view();
    let mut i: usize = 0;
    assert(views.take(0) =~= Seq::<(Seq<char>, Seq<char>)>::empty());
    assert(buf@ =~= old(buf)@ + short_wire(pairs.len() as u16) + string_pairs_wire(views.take(0)));
    while i < pairs.len()
        invariant
            i <= pairs@.len() <= u16::MAX,
            views == pairs.deep_view(),
            start == old(buf)@.len(),
            buf@ == old(buf)@ + short_wire(pairs@.len() as u16) + string_pairs_wire(
                views.take(i as int),
            ),
            string_pairs_fit(views.take(i as int)),
        decreases pairs@.len() - i,
    {
        let key_written = write_string(pairs[i].0.as_str(), buf);
        let written = match key_written {
            Ok(()) => write_string(pairs[i].1.as_str(), buf),
            Err(e) => Err(e),
        };
        if written.is_err() {
            buf.truncate(start);
            assert(buf@ =~= old(buf)@);
            assert(encode_utf8(views[i as int].0).len() > u16::MAX || encode_utf8(
                views[i as int].1,
            ).len() > u16::MAX);
            return Err(SerializeError::ShortLengthOverflow);
        }
        proof {
            assert(views.take(i + 1).drop_last() =~= views.take(i as int));
            assert(views.take(i + 1).last() == views[i as int]);
            assert forall|j: int| 0 <= j < i + 1 implies encode_utf8(
                (#[trigger] views.take(i + 1)[j]).0,
            ).len() <= u16::MAX && encode_utf8(views.take(i + 1)[j].1).len() <= u16::MAX by {
                if j < i {
                    assert(views.take(i + 1)[j] == views.take(i as int)[j]);
                }
            }
        }
        i += 1;
    }
    assert(views.take(i as int) =~= views);
    Ok(())
}

/// Reading one pair more reads what was read before, and the next pair
/// after it.
pub proof fn lemma_parse_string_pairs_more(count: nat, s: Seq<u8>)
    ensures
        parse_string_pairs(count + 1, s) == (match parse_string_pairs(count, s) {
            Err(e) => Err(e),
            Ok((pairs, rest)) => match parse_string(rest) {
                Err(e) => Err(e),
                Ok((key, rest)) => match parse_string(rest) {
                    Err(e) => Err(e),
                    Ok((value, rest)) => Ok((pairs.push((key, value)), rest)),
                },
            },
        }),
    decreases count,
{
    reveal_with_fuel(parse_string_pairs, 3);
    let none = Seq::<(Seq<char>, Seq<char>)>::empty();
    if count == 0 {
        if let Ok((key, after_key)) = parse_string(s) {
            if let Ok((value, _)) = parse_string(after_key) {
                assert(seq![(key, value)] + none =~= none.push((key, value)));
            }
        }
    } else {
        if let Ok((key, after_key)) = parse_string(s) {
            if let Ok((value, after_value)) = parse_string(after_key) {
                lemma_parse_string_pairs_more((count - 1) as nat, after_value);
                if let Ok((pairs, rest)) = parse_string_pairs((count - 1) as nat, after_value) {
                    if let Ok((last_key, after_last_key)) = parse_string(rest) {
                        if let Ok((last_value, _)) = parse_string(after_last_key) {
                            assert(seq![(key, value)] + pairs.push((last_key, last_value)) =~= (
                            seq![(key, value)] + pairs).push((last_key, last_value)));
                        }
                    }
                }
            }
        }
    }
}

/// The pairs of a map are read back one by one, whatever follows them.
pub proof fn lemma_parse_string_pairs_wire(pairs: Seq<(Seq<char>, Seq<char>)>, rest: Seq<u8>)
    requires
        string_pairs_fit(pairs),
    ensures
        parse_string_pairs(pairs.len(), string_pairs_wire(pairs) + rest) == Ok::<_, ParseError>(
            (pairs, rest),
        ),
    decreases pairs.len(),
{
    if pairs.len() == 0 {
        assert(string_pairs_wire(pairs) + rest =~= rest);
        assert(pairs =~= Seq::empty());
    } else {
        let front = pairs.drop_last();
        let (key, value) = pairs.last();
        assert(string_pairs_fit(front)) by {
            assert forall|i: int| 0 <= i < front.len() implies encode_utf8(
                (#[trigger] front[i]).0,
            ).len() <= u16::MAX && encode_utf8(front[i].1).len() <= u16::MAX by {
                assert(front[i] == pairs[i]);
            }
        }
        let after_front = string_wire(key) + (string_wire(value) + rest);
        assert(string_pairs_wire(pairs) + rest =~= string_pairs_wire(front) + after_front);
        lemma_parse_string_pairs_wire(front, after_front);
        lemma_parse_string_wire(key, string_wire(value) + rest);
        lemma_parse_string_wire(value, rest);
        lemma_parse_string_pairs_more(front.len(), string_pairs_wire(front) + after_front);
        assert(front.push((key, value)) =~= pairs);
    }
}

/// A `[string map]` that was written is read back, whatever follows it.
pub proof fn lemma_parse_string_map_wire(pairs: Seq<(Seq<char>, Seq<char>)>, rest: Seq<u8>)
    requires
        pairs.len() <= u16::MAX,
        string_pairs_fit(pairs),
    ensures
        parse_string_map(string_map_wire(pairs) + rest) == Ok::<_, ParseError>((pairs, rest)),
{
    assert(string_map_wire(pairs) + rest =~= short_wire(pairs.len() as u16) + (string_pairs_wire(
        pairs,
    ) + rest));
    lemma_parse_short_wire(pairs.len() as u16, string_pairs_wire(pairs) + rest);
    lemma_parse_string_pairs_wire(pairs, rest);
}

} // verus!
