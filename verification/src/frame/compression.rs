//! Bodies of frames that are compressed: with LZ4, a body is its length
//! before compression as an `[int]` and then one LZ4 block; with Snappy, it
//! is raw Snappy data.

use crate::frame::frame_codec::{Frame, Opcode, RequestOpcode, FLAG_COMPRESSION};
use crate::frame::frame_errors::{CompressionError, ParseError};
use crate::frame::types::{int_wire, lemma_parse_int_wire, parse_int, read_int, write_int};
use crate::transport::connection::Compression;
use vstd::prelude::*;

verus! {

/// What `lz4_flex` unpacks an LZ4 block to, given room for `room` bytes:
/// nothing where the block is damaged or needs more room.
pub uninterp spec fn lz4_unpacked(block: Seq<u8>, room: nat) -> Option<Seq<u8>>;

/// The number of bytes that raw Snappy data announces at its start, as
/// `snap` reads it: nothing where that start is damaged.
pub uninterp spec fn snappy_length(data: Seq<u8>) -> Option<usize>;

/// What `snap` unpacks raw Snappy data to, given room for `room` bytes:
/// nothing where the data is damaged or needs more room.
pub uninterp spec fn snappy_unpacked(data: Seq<u8>, room: nat) -> Option<Seq<u8>>;

/// `lz4_flex::block::decompress_into`. Not proved: that what it writes to
/// the start of `out`, and whether it fails, depends on nothing but the
/// block and the length of `out`; that it writes no more bytes than `out`
/// has, and leaves the length of `out` as it is. It adds up lengths that
/// the block names, each byte of the block counting for 255 at most, and
/// adds them to a place in `out`: the sum must be a number of the machine.
#[verifier::external_body]
fn lz4_unpack_into(block: &[u8], out: &mut Vec<u8>) -> (r: Option<usize>)
    requires
        255 * block@.len() + old(out)@.len() + 19 <= usize::MAX,
    ensures
        final(out)@.len() == old(out)@.len(),
        match r {
            Some(n) => n <= old(out)@.len() && lz4_unpacked(block@, old(out)@.len()) == Some(
                final(out)@.take(n as int),
            ),
            None => lz4_unpacked(block@, old(out)@.len()) is None,
        },
{
    lz4_flex::block::decompress_into(block, out.as_mut_slice()).ok()
}

/// `lz4_flex::block::compress`. Not proved: that the block it returns
/// unpacks, given room for as many bytes as the data has, to the data; and
/// that the block is no longer than the room that is allocated for it, a
/// little more than the data itself. That room must be no more than can be
/// allocated, and places in the data are counted in 32 bits.
#[verifier::external_body]
fn lz4_pack(data: &[u8]) -> (r: Vec<u8>)
    requires
        data@.len() <= i32::MAX,
        2 * data@.len() + 32 <= isize::MAX,
    ensures
        r@.len() <= 2 * data@.len() + 32,
        lz4_unpacked(r@, data@.len() as nat) == Some(data@),
{
    lz4_flex::block::compress(data)
}

/// `snap::raw::decompress_len`. Not proved: that the length it reads, and
/// whether it fails, depends on nothing but the data.
#[verifier::external_body]
fn snappy_len(data: &[u8]) -> (r: Option<usize>)
    ensures
        r == snappy_length(data@),
{
    snap::raw::decompress_len(data).ok()
}

/// `snap::raw::Decoder::decompress`. Not proved: that what it writes to
/// the start of `out`, and whether it fails, depends on nothing but the
/// data and the length of `out`; that it writes no more bytes than `out`
/// has, and leaves the length of `out` as it is.
#[verifier::external_body]
fn snappy_unpack_into(data: &[u8], out: &mut Vec<u8>) -> (r: Option<usize>)
    ensures
        final(out)@.len() == old(out)@.len(),
        match r {
            Some(n) => n <= old(out)@.len() && snappy_unpacked(data@, old(out)@.len()) == Some(
                final(out)@.take(n as int),
            ),
            None => snappy_unpacked(data@, old(out)@.len()) is None,
        },
{
    snap::raw::Decoder::new().decompress(data, out.as_mut_slice()).ok()
}

/// `snap::raw::Encoder::compress_vec`. Not proved: that it succeeds on
/// data of this size (it fails only where the data, with what compression
/// may add, has more bytes than 32 bits can count); that what it returns
/// announces as many bytes as the data has and unpacks, given room for so
/// many bytes, to the data. It allocates room for the most that the data
/// can give, a little more than the data itself, which must be no more than
/// can be allocated.
#[verifier::external_body]
fn snappy_pack(data: &[u8]) -> (r: Option<Vec<u8>>)
    requires
        data@.len() <= i32::MAX,
        2 * data@.len() + 32 <= isize::MAX,
    ensures
        r is Some,
        r matches Some(p) ==> snappy_length(p@) == Some(data@.len() as usize),
        r matches Some(p) ==> snappy_unpacked(p@, data@.len() as nat) == Some(data@),
{
    snap::raw::Encoder::new().compress_vec(data).ok()
}

/// The block is too long for this machine to unpack into `room` bytes:
/// each of its bytes may stand for a length of 255, and the lengths are
/// added up in numbers of the machine.
pub open spec fn lz4_block_too_long(block_length: nat, room: nat) -> bool {
    room + 19 > usize::MAX || block_length > (usize::MAX - 19 - room) / 255
}

/// The body that a compressed body unpacks to, or why it does not unpack.
/// With LZ4 the body begins with the length of what was compressed, and
/// the block that follows is unpacked into so many bytes; a block too long
/// for that counts as damaged. With Snappy the data says itself how many
/// bytes it unpacks to, which must be no more than a body can have.
pub open spec fn unpacked_body(compression: Compression, body: Seq<u8>) -> Result<
    Seq<u8>,
    CompressionError,
> {
    match compression {
        Compression::Lz4 => match parse_int(body) {
            Err(_) => Err(CompressionError::MissingLength),
            Ok((length, block)) => if length < 0 {
                Err(CompressionError::NegativeLength(length))
            } else if lz4_block_too_long(block.len(), length as nat) {
                Err(CompressionError::Damaged)
            } else {
                match lz4_unpacked(block, length as nat) {
                    Some(unpacked) => Ok(unpacked),
                    None => Err(CompressionError::Damaged),
                }
            },
        },
        Compression::Snappy => match snappy_length(body) {
            None => Err(CompressionError::Damaged),
            Some(length) => if length > i32::MAX {
                Err(CompressionError::TooLong(length))
            } else {
                match snappy_unpacked(body, length as nat) {
                    Some(unpacked) => Ok(unpacked),
                    None => Err(CompressionError::Damaged),
                }
            },
        },
    }
}

/// Unpacks the body of a frame that came in compressed.
pub fn unpack_body(compression: Compression, body: &[u8]) -> (r: Result<Vec<u8>, CompressionError>)
    ensures
        match r {
            Ok(unpacked) => unpacked_body(compression, body@) == Ok::<_, CompressionError>(
                unpacked@,
            ),
            Err(e) => unpacked_body(compression, body@) == Err::<Seq<u8>, _>(e),
        },
{
    match compression {
        Compression::Lz4 => {
            let mut block: &[u8] = body;
            let length = match read_int(&mut block) {
                Ok(length) => length,
                Err(_) => {
                    return Err(CompressionError::MissingLength);
                },
            };
            if length < 0 {
                return Err(CompressionError::NegativeLength(length));
            }
            if block.len() > (usize::MAX - 19 - length as usize) / 255 {
                return Err(CompressionError::Damaged);
            }
            let mut out: Vec<u8> = vec![0u8; length as usize];
            match lz4_unpack_into(block, &mut out) {
                Some(n) => {
                    out.truncate(n);
                    Ok(out)
                },
                None => Err(CompressionError::Damaged),
            }
        },
        Compression::Snappy => {
            let length = match snappy_len(body) {
                Some(length) => length,
                None => {
                    return Err(CompressionError::Damaged);
                },
            };
            if length > i32::MAX as usize {
                return Err(CompressionError::TooLong(length));
            }
            let mut out: Vec<u8> = vec![0u8; length];
            match snappy_unpack_into(body, &mut out) {
                Some(n) => {
                    out.truncate(n);
                    Ok(out)
                },
                None => Err(CompressionError::Damaged),
            }
        },
    }
}

/// The body can be compressed: it is no longer than a body can be, and
/// short enough for this machine to unpack what it is compressed to.
pub open spec fn can_pack(length: nat) -> bool {
    length <= i32::MAX && 511 * length + 8192 <= usize::MAX
}

/// `packed` is a compressed form of `body`: it unpacks to `body`, and with
/// LZ4 it begins with the length of `body`. Which bytes the compression
/// makes of the body is for the compressor to say.
pub open spec fn is_packed_form(compression: Compression, body: Seq<u8>, packed: Seq<u8>) -> bool {
    &&& unpacked_body(compression, packed) == Ok::<_, CompressionError>(body)
    &&& compression is Lz4 ==> packed.len() >= 4 && packed.take(4) == int_wire(
        body.len() as i32,
    )
}

/// Compresses the body of a frame that goes out. A body that is too long
/// is refused.
pub fn pack_body(compression: Compression, body: &[u8]) -> (r: Result<Vec<u8>, CompressionError>)
    ensures
        match r {
            Ok(packed) => can_pack(body@.len()) && is_packed_form(compression, body@, packed@),
            Err(e) => !can_pack(body@.len()) && e == CompressionError::TooLong(body.len()),
        },
{
    if body.len() > i32::MAX as usize || body.len() > (usize::MAX - 8192) / 511 {
        return Err(CompressionError::TooLong(body.len()));
    }
    match compression {
        Compression::Lz4 => {
            let mut packed: Vec<u8> = Vec::new();
            write_int(body.len() as i32, &mut packed);
            let ghost length = packed@;
            let mut block = lz4_pack(body);
            let ghost packed_block = block@;
            packed.append(&mut block);
            proof {
                assert(packed@.take(4) =~= length);
                assert(packed@ =~= int_wire(body.len() as i32) + packed_block);
                lemma_parse_int_wire(body.len() as i32, packed_block);
            }
            Ok(packed)
        },
        Compression::Snappy => match snappy_pack(body) {
            Some(packed) => Ok(packed),
            None => Err(CompressionError::TooLong(body.len())),
        },
    }
}

/// The frame of a request. Where a compression was agreed on, the body is
/// compressed and the frame says so.
pub fn request_frame(
    opcode: RequestOpcode,
    stream: i16,
    body: Vec<u8>,
    compression: Option<Compression>,
) -> (r: Result<Frame, CompressionError>)
    ensures
        match (compression, r) {
            (None, Ok(frame)) => frame.flags == 0 && frame.body@ == body@,
            (Some(c), Ok(frame)) => can_pack(body@.len()) && frame.flags == FLAG_COMPRESSION
                && is_packed_form(c, body@, frame.body@),
            (None, Err(_)) => false,
            (Some(_), Err(e)) => !can_pack(body@.len()) && e == CompressionError::TooLong(
                body@.len() as usize,
            ),
        },
        r matches Ok(frame) ==> frame.stream == stream && frame.opcode == Opcode::Request(opcode),
{
    match compression {
        None => Ok(Frame { flags: 0, stream, opcode: Opcode::Request(opcode), body }),
        Some(c) => {
            let packed = pack_body(c, body.as_slice())?;
            Ok(
                Frame {
                    flags: FLAG_COMPRESSION,
                    stream,
                    opcode: Opcode::Request(opcode),
                    body: packed,
                },
            )
        },
    }
}

} // verus!
