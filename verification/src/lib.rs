//! A binary message codec for a length-prefixed client/server handshake
//! protocol: an append-only `Writer` that encodes big-endian primitives and
//! length-prefixed strings, a cursor-based `Reader` that decodes them (plus a
//! variable-length zigzag-encoded signed integer), and a `Packet` that
//! assembles a complete outgoing hello frame.

pub mod hex;
pub mod packet;
pub mod reader;
pub mod wire;
pub mod writer;
