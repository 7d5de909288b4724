//! The wire format, as mathematics: big-endian byte layouts of the integer
//! fields, the length-prefixed string field, the variable-length signed
//! integer, and the decode failures a malformed frame can produce.

use vstd::prelude::*;
use vstd::utf8::*;

verus! {

/// How a decode can fail: a read past the end of the buffer, or string bytes
/// that are not valid UTF-8.
#[derive(Clone, Copy, Debug, PartialEq, Eq, Structural)]
pub enum CodecError {
    BufferUnderrun,
    InvalidEncoding,
}

/// The length value that stands for "no string present" instead of a byte count.
pub const ABSENT_STRING: u32 = 0xFFFF_FFFF;

/// A `u16` as two bytes, most significant first.
pub open spec fn be16(v: u16) -> Seq<u8> {
    seq![(v >> 8) as u8, v as u8]
}

/// The low 24 bits of a `u32` as three bytes, most significant first.
pub open spec fn be24(v: u32) -> Seq<u8> {
    seq![(v >> 16) as u8, (v >> 8) as u8, v as u8]
}

/// A `u32` as four bytes, most significant first.
pub open spec fn be32(v: u32) -> Seq<u8> {
    seq![(v >> 24) as u8, (v >> 16) as u8, (v >> 8) as u8, v as u8]
}

/// The `u16` whose big-endian bytes are `s`.
pub open spec fn be16_value(s: Seq<u8>) -> u16
    recommends
        s.len() == 2,
{
    ((s[0] as u16) << 8) | (s[1] as u16)
}

/// The `u32` whose three big-endian bytes are `s`.
pub open spec fn be24_value(s: Seq<u8>) -> u32
    recommends
        s.len() == 3,
{
    ((s[0] as u32) << 16) | ((s[1] as u32) << 8) | (s[2] as u32)
}

/// The `u32` whose big-endian bytes are `s`.
pub open spec fn be32_value(s: Seq<u8>) -> u32
    recommends
        s.len() == 4,
{
    ((s[0] as u32) << 24) | ((s[1] as u32) << 16) | ((s[2] as u32) << 8) | (s[3] as u32)
}

/// The bytes of a length-prefixed string field: a four-byte big-endian byte
/// count (truncated to 32 bits) followed by the string's UTF-8 bytes.
pub open spec fn string_field_bytes(s: Seq<char>) -> Seq<u8> {
    be32(encode_utf8(s).len() as u32) + encode_utf8(s)
}

/// What decoding a string field at position `c` of buffer `s` yields: the
/// decoded characters and the cursor after them, or the failure. A length
/// prefix of [`ABSENT_STRING`] stands for an absent string: it decodes to the
/// empty string and no bytes beyond the prefix are consumed.
pub open spec fn read_string_spec(s: Seq<u8>, c: int) -> Result<(Seq<char>, int), CodecError> {
    if c + 4 > s.len() {
        Err(CodecError::BufferUnderrun)
    } else {
        let n = be32_value(s.subrange(c, c + 4));
        if n == ABSENT_STRING {
            Ok((Seq::empty(), c + 4))
        } else if c + 4 + n > s.len() {
            Err(CodecError::BufferUnderrun)
        } else if valid_utf8(s.subrange(c + 4, c + 4 + n)) {
            Ok((decode_utf8(s.subrange(c + 4, c + 4 + n)), c + 4 + n))
        } else {
            Err(CodecError::InvalidEncoding)
        }
    }
}

/// The first byte of a variable-length integer, with its two high bits folded
/// back in: the byte is shifted left once, the original continuation flag
/// (bit 7) is reinserted at bit 7 and the folded sign bit (bit 6) at bit 0.
pub open spec fn vint_transform(b: u8) -> u8 {
    (b & 0x80) | ((b & 0x3f) << 1) | ((b >> 6) & 1)
}

/// Byte `j` of the variable-length integer starting at position `c` of buffer
/// `s`, after the first-byte transformation.
pub open spec fn vint_byte(s: Seq<u8>, c: int, j: int) -> u8 {
    if j == 0 {
        vint_transform(s[c])
    } else {
        s[c + j]
    }
}

/// The unsigned accumulator assembled from the first `k` bytes of the
/// variable-length integer at position `c`: each byte contributes its low
/// seven bits, the first byte least significant, each later byte shifted left
/// by a further seven positions.
pub open spec fn vint_accum(s: Seq<u8>, c: int, k: int) -> u32
    recommends
        k <= 5,
    decreases k,
{
    if k <= 0 {
        0
    } else {
        vint_accum(s, c, k - 1) | (((vint_byte(s, c, k - 1) & 0x7f) as u32) << ((7 * (k - 1)) as u32))
    }
}

/// The weight of payload group `j`: the first byte's seven payload bits are
/// least significant, and each later byte's weigh 128 times more.
pub open spec fn vint_coeff(j: int) -> int {
    if j == 0 {
        1
    } else if j == 1 {
        0x80
    } else if j == 2 {
        0x4000
    } else if j == 3 {
        0x20_0000
    } else {
        0x1000_0000
    }
}

/// The payload bits of the first `k` bytes of the variable-length integer at
/// position `c`, read as a base-128 number, first byte least significant.
pub open spec fn vint_payload_sum(s: Seq<u8>, c: int, k: int) -> int
    recommends
        k <= 5,
    decreases k,
{
    if k <= 0 {
        0
    } else {
        vint_payload_sum(s, c, k - 1) + (vint_byte(s, c, k - 1) & 0x7f) * vint_coeff(k - 1)
    }
}

/// The payload sum of `k` bytes stays under the weight of byte `k`: each byte
/// contributes at most 127 times its weight, and the weights grow by 128.
proof fn lemma_vint_payload_sum_bound(s: Seq<u8>, c: int, k: int)
    requires
        0 <= k <= 4,
    ensures
        0 <= vint_payload_sum(s, c, k) < vint_coeff(k),
    decreases k,
{
    if k > 0 {
        lemma_vint_payload_sum_bound(s, c, k - 1);
        let b = vint_byte(s, c, k - 1);
        assert(b & 0x7f <= 0x7f) by (bit_vector);
    }
}

/// Law: the accumulator assembled by the bitwise steps is the payload bits of
/// the bytes consumed, read as a base-128 number and truncated to 32 bits.
pub proof fn lemma_vint_accum_arithmetic(s: Seq<u8>, c: int, k: int)
    requires
        0 <= k <= 5,
    ensures
        vint_accum(s, c, k) == vint_payload_sum(s, c, k) % 0x1_0000_0000,
    decreases k,
{
    if k > 0 {
        lemma_vint_accum_arithmetic(s, c, k - 1);
        lemma_vint_payload_sum_bound(s, c, if k == 5 { 4 } else { k - 1 });
        let a = vint_accum(s, c, k - 1);
        let b = vint_byte(s, c, k - 1);
        let p = (b & 0x7f) as u32;
        assert(p <= 0x7f) by (bit_vector)
            requires
                p == (b & 0x7f) as u32,
        ;
        if k == 1 {
            assert((a | (p << 0u32)) == a + p * 1) by (bit_vector)
                requires
                    a == 0,
                    p <= 0x7f,
            ;
        } else if k == 2 {
            assert((a | (p << 7u32)) == a + p * 0x80) by (bit_vector)
                requires
                    a <= 0x7f,
                    p <= 0x7f,
            ;
        } else if k == 3 {
            assert((a | (p << 14u32)) == a + p * 0x4000) by (bit_vector)
                requires
                    a <= 0x3fff,
                    p <= 0x7f,
            ;
        } else if k == 4 {
            assert((a | (p << 21u32)) == a + p * 0x20_0000) by (bit_vector)
                requires
                    a <= 0x1f_ffff,
                    p <= 0x7f,
            ;
        } else {
            assert((a | (p << 28u32)) == (a + p * 0x1000_0000) % 0x1_0000_0000) by (bit_vector)
                requires
                    a <= 0xfff_ffff,
                    p <= 0x7f,
            ;
        }
    }
}

/// The standard zigzag decoding of an unsigned accumulator: even values are
/// non-negative, odd values negative, so small magnitudes of either sign use
/// few bytes.
pub open spec fn zigzag_decode(acc: u32) -> i32 {
    if acc % 2 == 0 {
        (acc / 2) as i32
    } else {
        (-1 - (acc / 2)) as i32
    }
}

/// The zero-based index of the byte that ends the variable-length integer at
/// position `c`, scanning from byte `k` on: the first byte whose continuation
/// flag (bit 7) is clear. An accumulator of 32 bits is filled by five bytes,
/// so one that is still unterminated after five is malformed; one that runs
/// past the end of the buffer is an underrun.
pub open spec fn vint_scan(s: Seq<u8>, c: int, k: int) -> Result<int, CodecError>
    decreases 5 - k,
{
    if k >= 5 {
        Err(CodecError::InvalidEncoding)
    } else if c + k >= s.len() {
        Err(CodecError::BufferUnderrun)
    } else if s[c + k] & 0x80 == 0 {
        Ok(k)
    } else {
        vint_scan(s, c, k + 1)
    }
}

/// What decoding a variable-length signed integer at position `c` of buffer
/// `s` yields: the decoded value and the cursor after its last byte, or the
/// failure.
pub open spec fn read_vint_spec(s: Seq<u8>, c: int) -> Result<(i32, int), CodecError> {
    match vint_scan(s, c, 0) {
        Ok(k) => Ok((zigzag_decode(vint_accum(s, c, k + 1)), c + k + 1)),
        Err(e) => Err(e),
    }
}

/// Law: a string written as a length-prefixed field decodes back to exactly
/// its own characters, consuming the prefix and the string bytes and nothing
/// more. Strings of `0xFFFFFFFF` bytes or longer are left out: their byte
/// count does not survive the 32-bit length prefix.
pub proof fn lemma_string_round_trip(s: Seq<char>)
    requires
        encode_utf8(s).len() < 0xFFFF_FFFF,
    ensures
        read_string_spec(string_field_bytes(s), 0) == Ok::<(Seq<char>, int), CodecError>(
            (s, 4 + encode_utf8(s).len() as int),
        ),
{
    let b = string_field_bytes(s);
    let e = encode_utf8(s);
    let n = e.len() as u32;
    assert(b.subrange(0, 4) =~= be32(n));
    lemma_u32_round_trip(n);
    assert(b.subrange(4, 4 + n as int) =~= e);
    encode_utf8_valid_utf8(s);
    encode_utf8_decode_utf8(s);
}

/// Law: a `u16` written big-endian reads back unchanged.
pub proof fn lemma_u16_round_trip(v: u16)
    ensures
        be16_value(be16(v)) == v,
{
    let b0 = (v >> 8) as u8;
    let b1 = v as u8;
    assert((((b0 as u16) << 8) | (b1 as u16)) == v) by (bit_vector)
        requires
            b0 == (v >> 8) as u8,
            b1 == v as u8,
    ;
}

/// Law: writing a `u32` as three bytes keeps exactly its low 24 bits, so any
/// value up to `0xFFFFFF` round-trips and larger values are truncated.
pub proof fn lemma_u24_round_trip(v: u32)
    ensures
        be24_value(be24(v)) == v % 0x100_0000,
        v <= 0xFF_FFFF ==> be24_value(be24(v)) == v,
{
    let b0 = (v >> 16) as u8;
    let b1 = (v >> 8) as u8;
    let b2 = v as u8;
    assert((((b0 as u32) << 16) | ((b1 as u32) << 8) | (b2 as u32)) == v % 0x100_0000)
        by (bit_vector)
        requires
            b0 == (v >> 16) as u8,
            b1 == (v >> 8) as u8,
            b2 == v as u8,
    ;
}

/// Law: a `u32` written big-endian reads back unchanged.
pub proof fn lemma_u32_round_trip(v: u32)
    ensures
        be32_value(be32(v)) == v,
{
    let b0 = (v >> 24) as u8;
    let b1 = (v >> 16) as u8;
    let b2 = (v >> 8) as u8;
    let b3 = v as u8;
    assert((((b0 as u32) << 24) | ((b1 as u32) << 16) | ((b2 as u32) << 8) | (b3 as u32)) == v)
        by (bit_vector)
        requires
            b0 == (v >> 24) as u8,
            b1 == (v >> 16) as u8,
            b2 == (v >> 8) as u8,
            b3 == v as u8,
    ;
}

} // verus!
