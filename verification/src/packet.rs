//! Assembly of a complete outgoing hello frame: the body is written first via
//! one [`Writer`], the header (which encodes the body's length) second via
//! another, and the two are concatenated header-first.

use vstd::prelude::*;

use crate::wire::{be16, be24, be32, string_field_bytes};
use crate::writer::Writer;

verus! {

/// The fixed body of an outgoing hello frame: two four-byte reserved zero
/// fields, the major, build and minor version fields, an empty
/// length-prefixed string (a device placeholder), and two constant
/// protocol-flag fields of value 2. The field order is part of the wire
/// contract.
pub open spec fn hello_body(major: u32, minor: u32, build: u32) -> Seq<u8> {
    be32(0) + be32(0) + be32(major) + be32(build) + be32(minor) + string_field_bytes(Seq::empty())
        + be32(2) + be32(2)
}

/// The header written in front of a body of `body_len` bytes: the message id,
/// the low 24 bits of the body length, and the constant protocol-version
/// field, always 0 for outgoing frames.
pub open spec fn frame_header(id: u16, body_len: nat) -> Seq<u8> {
    be16(id) + be24(body_len as u32) + be16(0)
}

/// A complete outgoing hello frame: seven header bytes followed by the body.
pub open spec fn hello_frame(id: u16, major: u32, minor: u32, build: u32) -> Seq<u8> {
    frame_header(id, hello_body(major, minor, build).len()) + hello_body(major, minor, build)
}

pub struct Packet {
    pub header: Writer,
    pub packet: Writer,
}

impl Packet {
    /// A packet with empty header and body buffers.
    pub fn new() -> (p: Packet)
        ensures
            p.header.stream@ == Seq::<u8>::empty(),
            p.packet.stream@ == Seq::<u8>::empty(),
    {
        Packet { header: Writer::new(), packet: Writer::new() }
    }

    /// Writes the header fields for the current body: `id`, the body length
    /// as three bytes, and the constant version field 0.
    pub fn write_header(&mut self, id: u16)
        ensures
            final(self).packet == old(self).packet,
            final(self).header.stream@ == old(self).header.stream@ + frame_header(
                id,
                old(self).packet.stream@.len(),
            ),
    {
        self.header.write_u16(id);
        let body_len = self.packet.length();
        self.header.write_u24(#[verifier::truncate] (body_len as u32));
        self.header.write_u16(0);
        proof {
            assert(self.header.stream@ =~= old(self).header.stream@ + frame_header(
                id,
                old(self).packet.stream@.len(),
            ));
        }
    }

    /// Writes the fixed hello body for the given version triple into the body
    /// buffer.
    pub fn write_packet(&mut self, major: u32, minor: u32, build: u32)
        ensures
            final(self).header == old(self).header,
            final(self).packet.stream@ == old(self).packet.stream@ + hello_body(
                major,
                minor,
                build,
            ),
    {
        self.packet.write_u32(0);
        self.packet.write_u32(0);
        self.packet.write_u32(major);
        self.packet.write_u32(build);
        self.packet.write_u32(minor);
        self.packet.write_string("");
        self.packet.write_u32(2);
        self.packet.write_u32(2);
        proof {
            reveal_strlit("");
            assert(""@ =~= Seq::<char>::empty());
            assert(self.packet.stream@ =~= old(self).packet.stream@ + hello_body(
                major,
                minor,
                build,
            ));
        }
    }

    /// Builds the complete frame: the body is written first, because the
    /// header encodes its final length, then the header; the result is the
    /// header bytes immediately followed by the body bytes.
    pub fn build(&mut self, id: u16, major: u32, minor: u32, build: u32) -> (r: Vec<u8>)
        ensures
            final(self).packet.stream@ == old(self).packet.stream@ + hello_body(
                major,
                minor,
                build,
            ),
            final(self).header.stream@ == old(self).header.stream@ + frame_header(
                id,
                final(self).packet.stream@.len(),
            ),
            r@ == final(self).header.stream@ + final(self).packet.stream@,
            old(self).header.stream@.len() == 0 && old(self).packet.stream@.len() == 0 ==> r@
                == hello_frame(id, major, minor, build),
    {
        self.write_packet(major, minor, build);
        self.write_header(id);
        let mut complete = vstd::slice::slice_to_vec(self.header.stream.as_slice());
        let mut body = vstd::slice::slice_to_vec(self.packet.stream.as_slice());
        complete.append(&mut body);
        proof {
            if old(self).header.stream@.len() == 0 && old(self).packet.stream@.len() == 0 {
                assert(self.packet.stream@ =~= hello_body(major, minor, build));
                assert(self.header.stream@ =~= frame_header(
                    id,
                    hello_body(major, minor, build).len(),
                ));
                assert(complete@ =~= hello_frame(id, major, minor, build));
            }
        }
        complete
    }
}

} // verus!
