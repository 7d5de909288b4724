//! An append-only growable byte buffer with big-endian primitive and
//! length-prefixed string encoders. Bytes are never removed or reordered once
//! written; each operation states exactly which bytes it appends.

use vstd::prelude::*;

use crate::wire::{be16, be24, be32, string_field_bytes};

verus! {

pub struct Writer {
    pub stream: Vec<u8>,
}

impl Writer {
    /// An empty buffer.
    pub fn new() -> (w: Writer)
        ensures
            w.stream@ == Seq::<u8>::empty(),
    {
        Writer { stream: Vec::new() }
    }

    /// Appends `data` verbatim.
    pub fn write(&mut self, data: &[u8])
        ensures
            final(self).stream@ == old(self).stream@ + data@,
    {
        let mut tail = vstd::slice::slice_to_vec(data);
        self.stream.append(&mut tail);
    }

    /// Appends `data` as two bytes, most significant first.
    pub fn write_u16(&mut self, data: u16)
        ensures
            final(self).stream@ == old(self).stream@ + be16(data),
    {
        self.stream.push((data >> 8) as u8);
        self.stream.push(data as u8);
        proof {
            assert(self.stream@ =~= old(self).stream@ + be16(data));
        }
    }

    /// Appends the low 24 bits of `data` as three bytes, most significant
    /// first; bits above 24 are deliberately discarded.
    pub fn write_u24(&mut self, data: u32)
        ensures
            final(self).stream@ == old(self).stream@ + be24(data),
    {
        self.stream.push((data >> 16) as u8);
        self.stream.push((data >> 8) as u8);
        self.stream.push(data as u8);
        proof {
            assert(self.stream@ =~= old(self).stream@ + be24(data));
        }
    }

    /// Appends `data` as four bytes, most significant first.
    pub fn write_u32(&mut self, data: u32)
        ensures
            final(self).stream@ == old(self).stream@ + be32(data),
    {
        self.stream.push((data >> 24) as u8);
        self.stream.push((data >> 16) as u8);
        self.stream.push((data >> 8) as u8);
        self.stream.push(data as u8);
        proof {
            assert(self.stream@ =~= old(self).stream@ + be32(data));
        }
    }

    /// Appends a four-byte big-endian length (the UTF-8 byte count of `data`,
    /// truncated to 32 bits) followed by the UTF-8 bytes themselves.
    pub fn write_string(&mut self, data: &str)
        ensures
            final(self).stream@ == old(self).stream@ + string_field_bytes(data@),
    {
        let bytes = data.as_bytes();
        self.write_u32(#[verifier::truncate] (bytes.len() as u32));
        self.write(bytes);
        proof {
            assert(self.stream@ =~= old(self).stream@ + string_field_bytes(data@));
        }
    }

    /// The number of bytes accumulated so far.
    pub fn length(&self) -> (n: usize)
        ensures
            n == self.stream@.len(),
    {
        self.stream.len()
    }
}

} // verus!
