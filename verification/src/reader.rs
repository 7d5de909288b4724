//! A cursor-based sequential byte-buffer consumer with big-endian primitive
//! decoders, a variable-length signed-integer decoder and a length-prefixed
//! string decoder. Every read advances the cursor by exactly the bytes it
//! consumes; a failed read reports a [`CodecError`] and leaves the reader
//! unchanged rather than advancing past the end.

use vstd::prelude::*;
use vstd::utf8::{decode_utf8, valid_utf8};

use crate::wire::{
    be16_value, be24_value, be32_value, read_string_spec, read_vint_spec, vint_accum, vint_byte,
    vint_scan, CodecError, ABSENT_STRING,
};

verus! {

pub struct Reader {
    pub stream: Vec<u8>,
    pub cursor: usize,
}

/// Relies on `String::from_utf8`: it succeeds exactly on valid UTF-8 input
/// and returns the string those bytes encode.
#[verifier::external_body]
fn utf8_to_string(bytes: Vec<u8>) -> (r: Option<String>)
    ensures
        r is Some <==> valid_utf8(bytes@),
        r is Some ==> r->Some_0@ == decode_utf8(bytes@),
{
    String::from_utf8(bytes).ok()
}

impl Reader {
    /// A reader over a copy of `data`, with the cursor at the start.
    pub fn new(data: &[u8]) -> (r: Reader)
        ensures
            r.stream@ == data@,
            r.cursor == 0,
    {
        Reader { stream: vstd::slice::slice_to_vec(data), cursor: 0 }
    }

    /// Returns the next `size` bytes and advances the cursor by `size`, or
    /// fails with a buffer underrun, leaving the reader unchanged, when fewer
    /// than `size` bytes remain.
    pub fn read(&mut self, size: usize) -> (r: Result<Vec<u8>, CodecError>)
        ensures
            final(self).stream@ == old(self).stream@,
            old(self).cursor + size <= old(self).stream@.len() ==> {
                &&& r is Ok
                &&& r->Ok_0@ == old(self).stream@.subrange(
                    old(self).cursor as int,
                    old(self).cursor + size,
                )
                &&& final(self).cursor == old(self).cursor + size
            },
            old(self).cursor + size > old(self).stream@.len() ==> {
                &&& r == Err::<Vec<u8>, CodecError>(CodecError::BufferUnderrun)
                &&& final(self).cursor == old(self).cursor
            },
    {
        if self.cursor <= self.stream.len() && size <= self.stream.len() - self.cursor {
            let out = vstd::slice::slice_to_vec(
                vstd::slice::slice_subrange(self.stream.as_slice(), self.cursor, self.cursor + size),
            );
            self.cursor = self.cursor + size;
            Ok(out)
        } else {
            Err(CodecError::BufferUnderrun)
        }
    }

    /// Reads one byte.
    pub fn read_byte(&mut self) -> (r: Result<u8, CodecError>)
        ensures
            final(self).stream@ == old(self).stream@,
            old(self).cursor + 1 <= old(self).stream@.len() ==> {
                &&& r is Ok
                &&& r->Ok_0 == old(self).stream@[old(self).cursor as int]
                &&& final(self).cursor == old(self).cursor + 1
            },
            old(self).cursor + 1 > old(self).stream@.len() ==> {
                &&& r == Err::<u8, CodecError>(CodecError::BufferUnderrun)
                &&& final(self).cursor == old(self).cursor
            },
    {
        if self.cursor < self.stream.len() {
            let b = self.stream[self.cursor];
            self.cursor = self.cursor + 1;
            Ok(b)
        } else {
            Err(CodecError::BufferUnderrun)
        }
    }

    /// Reads two bytes and interprets them big-endian.
    pub fn read_u16(&mut self) -> (r: Result<u16, CodecError>)
        ensures
            final(self).stream@ == old(self).stream@,
            old(self).cursor + 2 <= old(self).stream@.len() ==> {
                &&& r is Ok
                &&& r->Ok_0 == be16_value(
                    old(self).stream@.subrange(old(self).cursor as int, old(self).cursor + 2),
                )
                &&& final(self).cursor == old(self).cursor + 2
            },
            old(self).cursor + 2 > old(self).stream@.len() ==> {
                &&& r == Err::<u16, CodecError>(CodecError::BufferUnderrun)
                &&& final(self).cursor == old(self).cursor
            },
    {
        match self.read(2) {
            Ok(bytes) => Ok(((bytes[0] as u16) << 8) | (bytes[1] as u16)),
            Err(e) => Err(e),
        }
    }

    /// Reads three bytes and interprets them big-endian.
    pub fn read_u24(&mut self) -> (r: Result<u32, CodecError>)
        ensures
            final(self).stream@ == old(self).stream@,
            old(self).cursor + 3 <= old(self).stream@.len() ==> {
                &&& r is Ok
                &&& r->Ok_0 == be24_value(
                    old(self).stream@.subrange(old(self).cursor as int, old(self).cursor + 3),
                )
                &&& final(self).cursor == old(self).cursor + 3
            },
            old(self).cursor + 3 > old(self).stream@.len() ==> {
                &&& r == Err::<u32, CodecError>(CodecError::BufferUnderrun)
                &&& final(self).cursor == old(self).cursor
            },
    {
        match self.read(3) {
            Ok(bytes) => Ok(((bytes[0] as u32) << 16) | ((bytes[1] as u32) << 8) | (bytes[2] as u32)),
            Err(e) => Err(e),
        }
    }

    /// Reads four bytes and interprets them big-endian.
    pub fn read_u32(&mut self) -> (r: Result<u32, CodecError>)
        ensures
            final(self).stream@ == old(self).stream@,
            old(self).cursor + 4 <= old(self).stream@.len() ==> {
                &&& r is Ok
                &&& r->Ok_0 == be32_value(
                    old(self).stream@.subrange(old(self).cursor as int, old(self).cursor + 4),
                )
                &&& final(self).cursor == old(self).cursor + 4
            },
            old(self).cursor + 4 > old(self).stream@.len() ==> {
                &&& r == Err::<u32, CodecError>(CodecError::BufferUnderrun)
                &&& final(self).cursor == old(self).cursor
            },
    {
        match self.read(4) {
            Ok(bytes) => Ok(
                ((bytes[0] as u32) << 24) | ((bytes[1] as u32) << 16) | ((bytes[2] as u32) << 8)
                    | (bytes[3] as u32),
            ),
            Err(e) => Err(e),
        }
    }

    /// Advances the cursor by `size` bytes without returning data, or fails
    /// with a buffer underrun, leaving the reader unchanged, when fewer than
    /// `size` bytes remain.
    pub fn skip(&mut self, size: usize) -> (r: Result<(), CodecError>)
        ensures
            final(self).stream@ == old(self).stream@,
            old(self).cursor + size <= old(self).stream@.len() ==> {
                &&& r is Ok
                &&& final(self).cursor == old(self).cursor + size
            },
            old(self).cursor + size > old(self).stream@.len() ==> {
                &&& r == Err::<(), CodecError>(CodecError::BufferUnderrun)
                &&& final(self).cursor == old(self).cursor
            },
    {
        if self.cursor <= self.stream.len() && size <= self.stream.len() - self.cursor {
            self.cursor = self.cursor + size;
            Ok(())
        } else {
            Err(CodecError::BufferUnderrun)
        }
    }

    /// The total byte count of the underlying buffer (not the unread count).
    pub fn length(&self) -> (n: usize)
        ensures
            n == self.stream@.len(),
    {
        self.stream.len()
    }

    /// Reads a four-byte big-endian length, then that many bytes, decoded as
    /// UTF-8. A length of [`ABSENT_STRING`] means an absent string: the
    /// result is empty and only the four length bytes are consumed. Fails
    /// with a buffer underrun when the buffer is too short and with an
    /// invalid encoding when the bytes are not valid UTF-8; a failed read
    /// leaves the reader unchanged.
    pub fn read_string(&mut self) -> (r: Result<String, CodecError>)
        ensures
            final(self).stream@ == old(self).stream@,
            match read_string_spec(old(self).stream@, old(self).cursor as int) {
                Ok(p) => r is Ok && r->Ok_0@ == p.0 && final(self).cursor == p.1,
                Err(e) => r == Err::<String, CodecError>(e) && final(self).cursor == old(
                    self,
                ).cursor,
            },
    {
        let start = self.cursor;
        let length = match self.read_u32() {
            Ok(n) => n,
            Err(e) => {
                return Err(e);
            },
        };
        if length == ABSENT_STRING {
            return Ok(String::new());
        }
        match self.read(length as usize) {
            Ok(bytes) => match utf8_to_string(bytes) {
                Some(s) => Ok(s),
                None => {
                    self.cursor = start;
                    Err(CodecError::InvalidEncoding)
                },
            },
            Err(e) => {
                self.cursor = start;
                Err(e)
            },
        }
    }

    /// Decodes one variable-length, zigzag-encoded signed 32-bit integer:
    /// bytes carry seven payload bits each, least significant group first,
    /// with bit 7 as a continuation flag; the first byte additionally has its
    /// sign bit folded into bit 6 and is unfolded before its payload is
    /// taken. Fails with a buffer underrun when the buffer ends before a byte
    /// with a clear continuation flag, and with an invalid encoding when no
    /// such byte comes within the five bytes a 32-bit value can span; a
    /// failed read leaves the reader unchanged.
    pub fn read_vint(&mut self) -> (r: Result<i32, CodecError>)
        ensures
            final(self).stream@ == old(self).stream@,
            match read_vint_spec(old(self).stream@, old(self).cursor as int) {
                Ok(p) => r is Ok && r->Ok_0 == p.0 && final(self).cursor == p.1,
                Err(e) => r == Err::<i32, CodecError>(e) && final(self).cursor == old(self).cursor,
            },
    {
        let ghost s = self.stream@;
        let ghost c = self.cursor as int;
        if self.cursor > self.stream.len() {
            return Err(CodecError::BufferUnderrun);
        }
        let mut k: usize = 0;
        let mut acc: u32 = 0;
        loop
            invariant
                s == old(self).stream@,
                c == old(self).cursor as int,
                self.stream@ == s,
                self.cursor as int == c,
                c + k <= s.len(),
                0 <= k <= 5,
                acc == vint_accum(s, c, k as int),
                vint_scan(s, c, 0) == vint_scan(s, c, k as int),
            decreases 5 - k,
        {
            if k >= 5 {
                return Err(CodecError::InvalidEncoding);
            }
            if k >= self.stream.len() - self.cursor {
                return Err(CodecError::BufferUnderrun);
            }
            let b = self.stream[self.cursor + k];
            let t: u8 = if k == 0 {
                (b & 0x80) | ((b & 0x3f) << 1) | ((b >> 6) & 1)
            } else {
                b
            };
            proof {
                assert(t == vint_byte(s, c, k as int));
            }
            acc = acc | (((t & 0x7f) as u32) << (7 * (k as u32)));
            if b & 0x80 == 0 {
                self.cursor = self.cursor + k + 1;
                let half: u32 = acc / 2;
                proof {
                    assert(half <= 0x7FFF_FFFF);
                }
                if acc % 2 == 0 {
                    return Ok(half as i32);
                } else {
                    return Ok(-(half as i32) - 1);
                }
            }
            k = k + 1;
        }
    }

    /// Decodes the server's response value from the body of an inbound frame:
    /// under header version 8 it is a single byte, under any other version a
    /// big-endian `u32`.
    pub fn read_response(&mut self, version: u16) -> (r: Result<u32, CodecError>)
        ensures
            final(self).stream@ == old(self).stream@,
            version == 8 && old(self).cursor + 1 <= old(self).stream@.len() ==> {
                &&& r is Ok
                &&& r->Ok_0 == old(self).stream@[old(self).cursor as int] as u32
                &&& final(self).cursor == old(self).cursor + 1
            },
            version == 8 && old(self).cursor + 1 > old(self).stream@.len() ==> {
                &&& r == Err::<u32, CodecError>(CodecError::BufferUnderrun)
                &&& final(self).cursor == old(self).cursor
            },
            version != 8 && old(self).cursor + 4 <= old(self).stream@.len() ==> {
                &&& r is Ok
                &&& r->Ok_0 == be32_value(
                    old(self).stream@.subrange(old(self).cursor as int, old(self).cursor + 4),
                )
                &&& final(self).cursor == old(self).cursor + 4
            },
            version != 8 && old(self).cursor + 4 > old(self).stream@.len() ==> {
                &&& r == Err::<u32, CodecError>(CodecError::BufferUnderrun)
                &&& final(self).cursor == old(self).cursor
            },
    {
        if version == 8 {
            match self.read_byte() {
                Ok(b) => Ok(b as u32),
                Err(e) => Err(e),
            }
        } else {
            self.read_u32()
        }
    }
}

} // verus!
