//! Where a row lives: the token of a partition key.

use bytes::Bytes;
use crate::frame::byte_buffers::{bytes_as_slice, bytes_contents};
use vstd::prelude::*;

verus! {

/// A position on the ring of tokens.
#[derive(Debug, Clone, Copy, PartialEq, Eq, Structural)]
pub struct Token {
    pub value: i64,
}

/// The first multiplier of the hash.
pub const C1: u64 = 0x87c3_7b91_1142_53d5;

/// The second multiplier of the hash.
pub const C2: u64 = 0x4cf5_ad43_2745_937f;

/// `v` rotated left by `n` bits.
pub open spec fn rotl64(v: u64, n: u64) -> u64
    recommends
        0 < n < 64,
{
    (v << n) | (v >> ((64 - n) as u64))
}

/// The eight bytes of `data` from `from` on as a number, least significant
/// byte first.
#[verifier::opaque]
pub open spec fn le_u64(data: Seq<u8>, from: int) -> u64
    recommends
        0 <= from,
        from + 8 <= data.len(),
{
    (data[from] as u64) | ((data[from + 1] as u64) << 8) | ((data[from + 2] as u64) << 16) | ((
    data[from + 3] as u64) << 24) | ((data[from + 4] as u64) << 32) | ((data[from + 5] as u64)
        << 40) | ((data[from + 6] as u64) << 48) | ((data[from + 7] as u64) << 56)
}

/// How the first half of a block enters the hash.
pub open spec fn mix_k1(k: u64) -> u64 {
    rotl64(k.wrapping_mul(C1), 31).wrapping_mul(C2)
}

/// How the second half of a block enters the hash.
pub open spec fn mix_k2(k: u64) -> u64 {
    rotl64(k.wrapping_mul(C2), 33).wrapping_mul(C1)
}

/// The two halves of the state after a block of sixteen bytes, whose halves
/// are `k1` and `k2`, was taken in.
#[verifier::opaque]
pub open spec fn block_step(h: (u64, u64), k1: u64, k2: u64) -> (u64, u64) {
    let h1 = rotl64(h.0 ^ mix_k1(k1), 27).wrapping_add(h.1).wrapping_mul(5).wrapping_add(
        0x52dc_e729,
    );
    let h2 = rotl64(h.1 ^ mix_k2(k2), 31).wrapping_add(h1).wrapping_mul(5).wrapping_add(
        0x3849_5ab5,
    );
    (h1, h2)
}

/// The state after the first `count` blocks of sixteen bytes were taken in.
pub open spec fn blocks_state(data: Seq<u8>, count: nat) -> (u64, u64)
    recommends
        16 * count <= data.len(),
    decreases count,
{
    if count == 0 {
        (0, 0)
    } else {
        block_step(
            blocks_state(data, (count - 1) as nat),
            le_u64(data, 16 * (count - 1)),
            le_u64(data, 16 * (count - 1) + 8),
        )
    }
}

/// A byte widened as a signed number is: a byte of 128 or more fills the
/// upper bits with ones.
pub open spec fn sign_extend(b: u8) -> u64 {
    if b >= 128 {
        0xffff_ffff_ffff_ff00u64 | (b as u64)
    } else {
        b as u64
    }
}

/// Up to eight bytes of the tail, from `from` on, as one number: each byte
/// is sign-extended, shifted to its place, least significant first, and the
/// results are combined by exclusive or.
pub open spec fn tail_word(data: Seq<u8>, from: int, count: nat) -> u64
    recommends
        0 <= from,
        from + count <= data.len(),
        count <= 8,
    decreases count,
{
    if count == 0 {
        0
    } else {
        tail_word(data, from, (count - 1) as nat) ^ (sign_extend(data[from + count - 1]) << ((8 * (
        count - 1)) as u64))
    }
}

/// The final scrambling of one half of the state.
pub open spec fn fmix(k: u64) -> u64 {
    let k = (k ^ (k >> 33)).wrapping_mul(0xff51_afd7_ed55_8ccd);
    let k = (k ^ (k >> 33)).wrapping_mul(0xc4ce_b9fe_1a85_ec53);
    k ^ (k >> 33)
}

/// The lower 64 bits of the 128-bit Murmur3 hash of `data`, in the variant
/// that Cassandra computes: bytes of the tail are taken as signed.
pub open spec fn murmur3_bits(data: Seq<u8>) -> u64 {
    let blocks = data.len() / 16;
    let tail = (16 * blocks) as int;
    let tail_len = data.len() - tail;
    let (h1, h2) = blocks_state(data, blocks);
    let h2 = if tail_len > 8 {
        h2 ^ mix_k2(tail_word(data, tail + 8, (tail_len - 8) as nat))
    } else {
        h2
    };
    let h1 = if tail_len > 8 {
        h1 ^ mix_k1(tail_word(data, tail, 8))
    } else if tail_len > 0 {
        h1 ^ mix_k1(tail_word(data, tail, tail_len as nat))
    } else {
        h1
    };
    let h1 = h1 ^ (data.len() as u64);
    let h2 = h2 ^ (data.len() as u64);
    let h1 = h1.wrapping_add(h2);
    let h2 = h2.wrapping_add(h1);
    fmix(h1).wrapping_add(fmix(h2))
}

/// 64 bits read as a signed number in two's complement.
pub open spec fn as_signed(bits: u64) -> i64 {
    if bits >= 0x8000_0000_0000_0000 {
        (bits - 0x1_0000_0000_0000_0000) as i64
    } else {
        bits as i64
    }
}

/// The token of a partition key: the Murmur3 hash of its bytes.
pub open spec fn murmur3_hash(data: Seq<u8>) -> i64 {
    as_signed(murmur3_bits(data))
}

fn rotl(v: u64, n: u64) -> (r: u64)
    requires
        0 < n < 64,
    ensures
        r == rotl64(v, n),
{
    (v << n) | (v >> (64 - n))
}

fn read_le_u64(data: &[u8], from: usize) -> (r: u64)
    requires
        from + 8 <= data@.len(),
    ensures
        r == le_u64(data@, from as int),
{
    reveal(le_u64);
    (data[from] as u64) | ((data[from + 1] as u64) << 8) | ((data[from + 2] as u64) << 16) | ((
    data[from + 3] as u64) << 24) | ((data[from + 4] as u64) << 32) | ((data[from + 5] as u64)
        << 40) | ((data[from + 6] as u64) << 48) | ((data[from + 7] as u64) << 56)
}

fn read_tail_word(data: &[u8], from: usize, count: usize) -> (r: u64)
    requires
        from + count <= data@.len(),
        count <= 8,
    ensures
        r == tail_word(data@, from as int, count as nat),
{
    let len = data.len();
    let mut k: u64 = 0;
    let mut i: usize = 0;
    while i < count
        invariant
            i <= count <= 8,
            from + count <= data@.len() == len,
            k == tail_word(data@, from as int, i as nat),
        decreases count - i,
    {
        let b = data[from + i];
        let wide: u64 = if b >= 128 {
            0xffff_ffff_ffff_ff00u64 | (b as u64)
        } else {
            b as u64
        };
        k = k ^ (wide << ((8 * i) as u64));
        i += 1;
    }
    k
}

fn mix1(k: u64) -> (r: u64)
    ensures
        r == mix_k1(k),
{
    rotl(k.wrapping_mul(C1), 31).wrapping_mul(C2)
}

fn mix2(k: u64) -> (r: u64)
    ensures
        r == mix_k2(k),
{
    rotl(k.wrapping_mul(C2), 33).wrapping_mul(C1)
}

fn final_mix(k: u64) -> (r: u64)
    ensures
        r == fmix(k),
{
    let k = (k ^ (k >> 33)).wrapping_mul(0xff51_afd7_ed55_8ccd);
    let k = (k ^ (k >> 33)).wrapping_mul(0xc4ce_b9fe_1a85_ec53);
    k ^ (k >> 33)
}

fn take_block(h1: u64, h2: u64, k1: u64, k2: u64) -> (r: (u64, u64))
    ensures
        r == block_step((h1, h2), k1, k2),
{
    reveal(block_step);
    let h1 = rotl(h1 ^ mix1(k1), 27).wrapping_add(h2).wrapping_mul(5).wrapping_add(0x52dc_e729);
    let h2 = rotl(h2 ^ mix2(k2), 31).wrapping_add(h1).wrapping_mul(5).wrapping_add(0x3849_5ab5);
    (h1, h2)
}

/// Hashes a byte string to a signed 64-bit number.
pub fn hash3_x64_128(data: &[u8]) -> (r: i64)
    ensures
        r == murmur3_hash(data@),
{
    let len = data.len();
    let blocks = len / 16;
    let mut h1: u64 = 0;
    let mut h2: u64 = 0;
    let mut i: usize = 0;
    while i < blocks
        invariant
            i <= blocks,
            len == data@.len(),
            blocks == len / 16,
            (h1, h2) == blocks_state(data@, i as nat),
        decreases blocks - i,
    {
        let k1 = read_le_u64(data, 16 * i);
        let k2 = read_le_u64(data, 16 * i + 8);
        let h = take_block(h1, h2, k1, k2);
        h1 = h.0;
        h2 = h.1;
        i += 1;
    }
    let tail = 16 * blocks;
    let tail_len = len - tail;
    if tail_len > 8 {
        h2 = h2 ^ mix2(read_tail_word(data, tail + 8, tail_len - 8));
        h1 = h1 ^ mix1(read_tail_word(data, tail, 8));
    } else if tail_len > 0 {
        h1 = h1 ^ mix1(read_tail_word(data, tail, tail_len));
    }
    h1 = h1 ^ (len as u64);
    h2 = h2 ^ (len as u64);
    h1 = h1.wrapping_add(h2);
    h2 = h2.wrapping_add(h1);
    let bits = final_mix(h1).wrapping_add(final_mix(h2));
    if bits >= 0x8000_0000_0000_0000 {
        ((bits - 0x8000_0000_0000_0000) as i64) + i64::MIN
    } else {
        bits as i64
    }
}

/// The token of a partition key.
pub fn murmur3_token(pk: Bytes) -> (r: Token)
    ensures
        r.value == murmur3_hash(bytes_contents(&pk)),
{
    Token { value: hash3_x64_128(bytes_as_slice(&pk)) }
}

} // verus!
