//! The fixed 24-byte header that starts every packet of the binary protocol.
use crate::codec::wire::{
    be16, be32, be64, lemma_be16_bytes, lemma_be16_value, lemma_be32_bytes, lemma_be32_value,
    lemma_be64_bytes, lemma_be64_value, read_u16_be, read_u32_be, read_u64_be, read_u8, u16_from_be,
    u32_from_be, u64_from_be, write_u16_be, write_u32_be, write_u64_be, write_u8,
};
use crate::error::{numbered_message, decimal_digits, Error};
use vstd::prelude::*;

verus! {

/// Command codes carried in the `opcode` byte.
#[derive(Clone, Copy, Debug, PartialEq, Eq, Structural)]
pub enum Opcode {
    Get,
    SetValue,
    Add,
    Replace,
    Delete,
    Increment,
    Decrement,
    Flush,
    Stat,
    Noop,
    Version,
    GetKQ,
    Append,
    Prepend,
    Touch,
    StartAuth,
}

impl Opcode {
    /// The byte that stands for this command on the wire.
    pub open spec fn spec_code(self) -> u8 {
        match self {
            Opcode::Get => 0x00,
            Opcode::SetValue => 0x01,
            Opcode::Add => 0x02,
            Opcode::Replace => 0x03,
            Opcode::Delete => 0x04,
            Opcode::Increment => 0x05,
            Opcode::Decrement => 0x06,
            Opcode::Flush => 0x08,
            Opcode::Stat => 0x10,
            Opcode::Noop => 0x0a,
            Opcode::Version => 0x0b,
            Opcode::GetKQ => 0x0d,
            Opcode::Append => 0x0e,
            Opcode::Prepend => 0x0f,
            Opcode::Touch => 0x1c,
            Opcode::StartAuth => 0x21,
        }
    }

    /// The byte that stands for this command on the wire.
    pub fn code(self) -> (c: u8)
        ensures
            c == self.spec_code(),
    {
        match self {
            Opcode::Get => 0x00,
            Opcode::SetValue => 0x01,
            Opcode::Add => 0x02,
            Opcode::Replace => 0x03,
            Opcode::Delete => 0x04,
            Opcode::Increment => 0x05,
            Opcode::Decrement => 0x06,
            Opcode::Flush => 0x08,
            Opcode::Stat => 0x10,
            Opcode::Noop => 0x0a,
            Opcode::Version => 0x0b,
            Opcode::GetKQ => 0x0d,
            Opcode::Append => 0x0e,
            Opcode::Prepend => 0x0f,
            Opcode::Touch => 0x1c,
            Opcode::StartAuth => 0x21,
        }
    }
}

/// The first byte of a packet: which way it travels.
#[derive(Clone, Copy, Debug, PartialEq, Eq, Structural)]
pub enum Magic {
    Request,
    Response,
}

impl Magic {
    /// The byte that stands for this direction on the wire.
    pub open spec fn spec_code(self) -> u8 {
        match self {
            Magic::Request => 0x80,
            Magic::Response => 0x81,
        }
    }

    /// The byte that stands for this direction on the wire.
    pub fn code(self) -> (c: u8)
        ensures
            c == self.spec_code(),
    {
        match self {
            Magic::Request => 0x80,
            Magic::Response => 0x81,
        }
    }
}

/// Status codes a server puts in the `vbucket_id_or_status` field of a response.
#[derive(Clone, Copy, Debug, PartialEq, Eq, Structural)]
pub enum ResponseStatus {
    NoError,
    KeyNotFound,
    KeyExits,
    ValueTooLarge,
    InvalidArguments,
    AuthenticationRequired,
}

impl ResponseStatus {
    /// The status value on the wire.
    pub open spec fn spec_code(self) -> u16 {
        match self {
            ResponseStatus::NoError => 0x00,
            ResponseStatus::KeyNotFound => 0x01,
            ResponseStatus::KeyExits => 0x02,
            ResponseStatus::ValueTooLarge => 0x03,
            ResponseStatus::InvalidArguments => 0x04,
            ResponseStatus::AuthenticationRequired => 0x20,
        }
    }

    /// The status value on the wire.
    pub fn code(self) -> (c: u16)
        ensures
            c == self.spec_code(),
    {
        match self {
            ResponseStatus::NoError => 0x00,
            ResponseStatus::KeyNotFound => 0x01,
            ResponseStatus::KeyExits => 0x02,
            ResponseStatus::ValueTooLarge => 0x03,
            ResponseStatus::InvalidArguments => 0x04,
            ResponseStatus::AuthenticationRequired => 0x20,
        }
    }
}

/// A packet header, field by field, in the order of the wire.
#[derive(Debug)]
pub struct PacketHeader {
    pub magic: u8,
    pub opcode: u8,
    pub key_length: u16,
    pub extras_length: u8,
    pub data_type: u8,
    pub vbucket_id_or_status: u16,
    pub total_body_length: u32,
    pub opaque: u32,
    pub cas: u64,
}

/// The extras of a store command (set, add, replace).
#[derive(Debug)]
pub struct StoreExtras {
    pub flags: u32,
    pub expiration: u32,
}

/// The extras of a counter command (increment, decrement).
#[derive(Debug)]
pub struct CounterExtras {
    pub amount: u64,
    pub initial_value: u64,
    pub expiration: u32,
}

/// Number of bytes of a header on the wire.
pub const HEADER_LEN: usize = 24;

/// The all-zero header that requests are built from.
pub open spec fn zero_header() -> PacketHeader {
    PacketHeader {
        magic: 0,
        opcode: 0,
        key_length: 0,
        extras_length: 0,
        data_type: 0,
        vbucket_id_or_status: 0,
        total_body_length: 0,
        opaque: 0,
        cas: 0,
    }
}

impl Default for PacketHeader {
    fn default() -> (h: Self)
        ensures
            h == zero_header(),
    {
        PacketHeader {
            magic: 0,
            opcode: 0,
            key_length: 0,
            extras_length: 0,
            data_type: 0,
            vbucket_id_or_status: 0,
            total_body_length: 0,
            opaque: 0,
            cas: 0,
        }
    }
}

/// The 24 bytes of a header: single bytes as they are, wider fields
/// big-endian.
pub open spec fn header_bytes(h: PacketHeader) -> Seq<u8> {
    seq![h.magic, h.opcode] + be16(h.key_length) + seq![h.extras_length, h.data_type] + be16(
        h.vbucket_id_or_status,
    ) + be32(h.total_body_length) + be32(h.opaque) + be64(h.cas)
}

/// The header whose fields stand in the first 24 bytes of `b`.
pub open spec fn header_from_bytes(b: Seq<u8>) -> PacketHeader {
    PacketHeader {
        magic: b[0],
        opcode: b[1],
        key_length: u16_from_be(b.subrange(2, 4)),
        extras_length: b[4],
        data_type: b[5],
        vbucket_id_or_status: u16_from_be(b.subrange(6, 8)),
        total_body_length: u32_from_be(b.subrange(8, 12)),
        opaque: u32_from_be(b.subrange(12, 16)),
        cas: u64_from_be(b.subrange(16, 24)),
    }
}

/// A magic byte that names a direction of travel.
pub open spec fn is_known_magic(m: u8) -> bool {
    m == Magic::Request.spec_code() || m == Magic::Response.spec_code()
}

/// Input that starts with a whole header with a known magic byte.
pub open spec fn header_readable(input: Seq<u8>) -> bool {
    input.len() >= HEADER_LEN && is_known_magic(input[0])
}

/// The message that rejects the magic byte `m`.
pub open spec fn bad_magic_text(m: u8) -> Seq<char> {
    "Bad magic number in response header: "@ + decimal_digits(m as nat)
}

/// The error that reading a header from `input` fails with, where it fails:
/// a rejected magic byte when there is a first byte and it is unknown, and
/// otherwise an input error.
pub open spec fn header_failure(input: Seq<u8>, e: Error) -> bool {
    if input.len() > 0 && !is_known_magic(input[0]) {
        e matches Error::ClientError(msg) && msg@ == bad_magic_text(input[0])
    } else {
        e is Io
    }
}

/// Reading a header off the front of `header_bytes(h) + rest` gives `h` back
/// and leaves `rest`; a header with a known magic byte is read without error.
pub proof fn lemma_header_from_bytes_roundtrip(h: PacketHeader, rest: Seq<u8>)
    ensures
        is_known_magic(h.magic) ==> header_readable(header_bytes(h) + rest),
        (header_bytes(h) + rest).len() == HEADER_LEN + rest.len(),
        header_from_bytes(header_bytes(h) + rest) == h,
        (header_bytes(h) + rest).skip(HEADER_LEN as int) == rest,
{
    let b = header_bytes(h) + rest;
    assert(b.subrange(2, 4) =~= be16(h.key_length));
    assert(b.subrange(6, 8) =~= be16(h.vbucket_id_or_status));
    assert(b.subrange(8, 12) =~= be32(h.total_body_length));
    assert(b.subrange(12, 16) =~= be32(h.opaque));
    assert(b.subrange(16, 24) =~= be64(h.cas));
    lemma_be16_value(h.key_length);
    lemma_be16_value(h.vbucket_id_or_status);
    lemma_be32_value(h.total_body_length);
    lemma_be32_value(h.opaque);
    lemma_be64_value(h.cas);
    assert(b.skip(HEADER_LEN as int) =~= rest);
}

/// The bytes a header is read from are exactly the bytes it encodes to.
pub proof fn lemma_header_bytes_faithful(b: Seq<u8>)
    requires
        b.len() >= HEADER_LEN,
    ensures
        header_bytes(header_from_bytes(b)) == b.take(HEADER_LEN as int),
{
    lemma_be16_bytes(b.subrange(2, 4));
    lemma_be16_bytes(b.subrange(6, 8));
    lemma_be32_bytes(b.subrange(8, 12));
    lemma_be32_bytes(b.subrange(12, 16));
    lemma_be64_bytes(b.subrange(16, 24));
    assert(header_bytes(header_from_bytes(b)) =~= b.take(HEADER_LEN as int));
}

impl PacketHeader {
    /// Appends the 24 bytes of this header to `writer`.
    pub fn write(self, writer: &mut Vec<u8>) -> (r: Result<(), Error>)
        ensures
            r is Ok,
            final(writer)@ == old(writer)@ + header_bytes(self),
    {
        let _ = write_u8(writer, self.magic);
        let _ = write_u8(writer, self.opcode);
        let _ = write_u16_be(writer, self.key_length);
        let _ = write_u8(writer, self.extras_length);
        let _ = write_u8(writer, self.data_type);
        let _ = write_u16_be(writer, self.vbucket_id_or_status);
        let _ = write_u32_be(writer, self.total_body_length);
        let _ = write_u32_be(writer, self.opaque);
        let _ = write_u64_be(writer, self.cas);
        assert(writer@ =~= old(writer)@ + header_bytes(self));
        Ok(())
    }

    /// Reads a header off the front of `reader`, checking its magic byte.
    pub fn read(reader: &mut &[u8]) -> (r: Result<PacketHeader, Error>)
        ensures
            header_readable(old(reader)@) ==> (r matches Ok(h) && h == header_from_bytes(
                old(reader)@,
            ) && final(reader)@ == old(reader)@.skip(HEADER_LEN as int)),
            !header_readable(old(reader)@) ==> (r matches Err(e) && header_failure(
                old(reader)@,
                e,
            )),
            old(reader)@.len() > 0 && !is_known_magic(old(reader)@[0]) ==> final(reader)@ == old(
                reader,
            )@.skip(1),
    {
        let ghost input = reader@;
        let magic = match read_u8(reader) {
            Ok(v) => v,
            Err(e) => return Err(Error::Io(e)),
        };
        if magic != Magic::Request.code() && magic != Magic::Response.code() {
            return Err(
                Error::ClientError(
                    numbered_message("Bad magic number in response header: ", magic as u64),
                ),
            );
        }
        let opcode = match read_u8(reader) {
            Ok(v) => v,
            Err(e) => return Err(Error::Io(e)),
        };
        let key_length = match read_u16_be(reader) {
            Ok(v) => v,
            Err(e) => return Err(Error::Io(e)),
        };
        let extras_length = match read_u8(reader) {
            Ok(v) => v,
            Err(e) => return Err(Error::Io(e)),
        };
        let data_type = match read_u8(reader) {
            Ok(v) => v,
            Err(e) => return Err(Error::Io(e)),
        };
        let vbucket_id_or_status = match read_u16_be(reader) {
            Ok(v) => v,
            Err(e) => return Err(Error::Io(e)),
        };
        let total_body_length = match read_u32_be(reader) {
            Ok(v) => v,
            Err(e) => return Err(Error::Io(e)),
        };
        let opaque = match read_u32_be(reader) {
            Ok(v) => v,
            Err(e) => return Err(Error::Io(e)),
        };
        let cas = match read_u64_be(reader) {
            Ok(v) => v,
            Err(e) => return Err(Error::Io(e)),
        };
        let header = PacketHeader {
            magic,
            opcode,
            key_length,
            extras_length,
            data_type,
            vbucket_id_or_status,
            total_body_length,
            opaque,
            cas,
        };
        proof {
            assert(input.skip(2).take(2) =~= input.subrange(2, 4));
        }
        Ok(header)
    }
}

} // verus!
