//! Big-endian integers on the wire, and the byte-slice readers and
//! `Vec<u8>` writers the codec is built from.
use byteorder::{BigEndian, ReadBytesExt, WriteBytesExt};
use vstd::prelude::*;
use vstd::utf8::{decode_utf8, valid_utf8};

verus! {

/// The two bytes of `v`, most significant first.
pub open spec fn be16(v: u16) -> Seq<u8> {
    seq![(v >> 8u16) as u8, v as u8]
}

/// The four bytes of `v`, most significant first.
pub open spec fn be32(v: u32) -> Seq<u8> {
    seq![(v >> 24u32) as u8, (v >> 16u32) as u8, (v >> 8u32) as u8, v as u8]
}

/// The eight bytes of `v`, most significant first.
pub open spec fn be64(v: u64) -> Seq<u8> {
    seq![
        (v >> 56u64) as u8,
        (v >> 48u64) as u8,
        (v >> 40u64) as u8,
        (v >> 32u64) as u8,
        (v >> 24u64) as u8,
        (v >> 16u64) as u8,
        (v >> 8u64) as u8,
        v as u8,
    ]
}

/// The value of the first two bytes of `b`, read most significant first.
pub open spec fn u16_from_be(b: Seq<u8>) -> u16 {
    ((b[0] as u16) << 8u16) | (b[1] as u16)
}

/// The value of the first four bytes of `b`, read most significant first.
pub open spec fn u32_from_be(b: Seq<u8>) -> u32 {
    ((b[0] as u32) << 24u32) | ((b[1] as u32) << 16u32) | ((b[2] as u32) << 8u32) | (b[3] as u32)
}

/// The value of the first eight bytes of `b`, read most significant first.
pub open spec fn u64_from_be(b: Seq<u8>) -> u64 {
    ((b[0] as u64) << 56u64) | ((b[1] as u64) << 48u64) | ((b[2] as u64) << 40u64) | ((b[3] as u64)
        << 32u64) | ((b[4] as u64) << 24u64) | ((b[5] as u64) << 16u64) | ((b[6] as u64) << 8u64)
        | (b[7] as u64)
}

/// Decoding the encoding of a 16-bit value gives the value back.
pub proof fn lemma_be16_value(v: u16)
    ensures
        u16_from_be(be16(v)) == v,
{
    let b0 = (v >> 8u16) as u8;
    let b1 = v as u8;
    assert(((b0 as u16) << 8u16) | (b1 as u16) == v) by (bit_vector)
        requires
            b0 == (v >> 8u16) as u8,
            b1 == v as u8,
    ;
}

/// Encoding the value of two bytes gives the bytes back.
pub proof fn lemma_be16_bytes(b: Seq<u8>)
    requires
        b.len() == 2,
    ensures
        be16(u16_from_be(b)) == b,
{
    let b0 = b[0];
    let b1 = b[1];
    let v = u16_from_be(b);
    assert((v >> 8u16) as u8 == b0 && v as u8 == b1) by (bit_vector)
        requires
            v == ((b0 as u16) << 8u16) | (b1 as u16),
    ;
    assert(be16(v) =~= b);
}

/// Decoding the encoding of a 32-bit value gives the value back.
pub proof fn lemma_be32_value(v: u32)
    ensures
        u32_from_be(be32(v)) == v,
{
    let b0 = (v >> 24u32) as u8;
    let b1 = (v >> 16u32) as u8;
    let b2 = (v >> 8u32) as u8;
    let b3 = v as u8;
    assert(((b0 as u32) << 24u32) | ((b1 as u32) << 16u32) | ((b2 as u32) << 8u32) | (b3 as u32)
        == v) by (bit_vector)
        requires
            b0 == (v >> 24u32) as u8,
            b1 == (v >> 16u32) as u8,
            b2 == (v >> 8u32) as u8,
            b3 == v as u8,
    ;
}

/// Encoding the value of four bytes gives the bytes back.
pub proof fn lemma_be32_bytes(b: Seq<u8>)
    requires
        b.len() == 4,
    ensures
        be32(u32_from_be(b)) == b,
{
    let b0 = b[0];
    let b1 = b[1];
    let b2 = b[2];
    let b3 = b[3];
    let v = u32_from_be(b);
    assert((v >> 24u32) as u8 == b0 && (v >> 16u32) as u8 == b1 && (v >> 8u32) as u8 == b2 && v as u8
        == b3) by (bit_vector)
        requires
            v == ((b0 as u32) << 24u32) | ((b1 as u32) << 16u32) | ((b2 as u32) << 8u32) | (
            b3 as u32),
    ;
    assert(be32(v) =~= b);
}

/// Decoding the encoding of a 64-bit value gives the value back.
pub proof fn lemma_be64_value(v: u64)
    ensures
        u64_from_be(be64(v)) == v,
{
    let b0 = (v >> 56u64) as u8;
    let b1 = (v >> 48u64) as u8;
    let b2 = (v >> 40u64) as u8;
    let b3 = (v >> 32u64) as u8;
    let b4 = (v >> 24u64) as u8;
    let b5 = (v >> 16u64) as u8;
    let b6 = (v >> 8u64) as u8;
    let b7 = v as u8;
    assert(((b0 as u64) << 56u64) | ((b1 as u64) << 48u64) | ((b2 as u64) << 40u64) | ((b3 as u64)
        << 32u64) | ((b4 as u64) << 24u64) | ((b5 as u64) << 16u64) | ((b6 as u64) << 8u64) | (
    b7 as u64) == v) by (bit_vector)
        requires
            b0 == (v >> 56u64) as u8,
            b1 == (v >> 48u64) as u8,
            b2 == (v >> 40u64) as u8,
            b3 == (v >> 32u64) as u8,
            b4 == (v >> 24u64) as u8,
            b5 == (v >> 16u64) as u8,
            b6 == (v >> 8u64) as u8,
            b7 == v as u8,
    ;
}

/// Encoding the value of eight bytes gives the bytes back.
pub proof fn lemma_be64_bytes(b: Seq<u8>)
    requires
        b.len() == 8,
    ensures
        be64(u64_from_be(b)) == b,
{
    let b0 = b[0];
    let b1 = b[1];
    let b2 = b[2];
    let b3 = b[3];
    let b4 = b[4];
    let b5 = b[5];
    let b6 = b[6];
    let b7 = b[7];
    let v = u64_from_be(b);
    assert((v >> 56u64) as u8 == b0 && (v >> 48u64) as u8 == b1 && (v >> 40u64) as u8 == b2 && (v
        >> 32u64) as u8 == b3 && (v >> 24u64) as u8 == b4 && (v >> 16u64) as u8 == b5 && (v
        >> 8u64) as u8 == b6 && v as u8 == b7) by (bit_vector)
        requires
            v == ((b0 as u64) << 56u64) | ((b1 as u64) << 48u64) | ((b2 as u64) << 40u64) | ((
            b3 as u64) << 32u64) | ((b4 as u64) << 24u64) | ((b5 as u64) << 16u64) | ((b6 as u64)
                << 8u64) | (b7 as u64),
    ;
    assert(be64(v) =~= b);
}

/// `ReadBytesExt::read_u8` on a byte slice. The slice implements `Read` by
/// copying from its front and advancing past what was read; when it is empty
/// the read fails (an `UnexpectedEof` error of `read_exact`).
#[verifier::external_body]
pub(crate) fn read_u8(reader: &mut &[u8]) -> (r: Result<u8, std::io::Error>)
    ensures
        old(reader)@.len() >= 1 ==> (r matches Ok(v) && v == old(reader)@[0] && final(reader)@
            == old(reader)@.skip(1)),
        old(reader)@.len() < 1 ==> r is Err,
{
    reader.read_u8()
}

/// `ReadBytesExt::read_u16::<BigEndian>` on a byte slice: the first two bytes,
/// most significant first, consumed from the front; an error when fewer remain.
#[verifier::external_body]
pub(crate) fn read_u16_be(reader: &mut &[u8]) -> (r: Result<u16, std::io::Error>)
    ensures
        old(reader)@.len() >= 2 ==> (r matches Ok(v) && v == u16_from_be(old(reader)@)
            && final(reader)@ == old(reader)@.skip(2)),
        old(reader)@.len() < 2 ==> r is Err,
{
    reader.read_u16::<BigEndian>()
}

/// `ReadBytesExt::read_u32::<BigEndian>` on a byte slice: the first four bytes,
/// most significant first, consumed from the front; an error when fewer remain.
#[verifier::external_body]
pub(crate) fn read_u32_be(reader: &mut &[u8]) -> (r: Result<u32, std::io::Error>)
    ensures
        old(reader)@.len() >= 4 ==> (r matches Ok(v) && v == u32_from_be(old(reader)@)
            && final(reader)@ == old(reader)@.skip(4)),
        old(reader)@.len() < 4 ==> r is Err,
{
    reader.read_u32::<BigEndian>()
}

/// `ReadBytesExt::read_u64::<BigEndian>` on a byte slice: the first eight bytes,
/// most significant first, consumed from the front; an error when fewer remain.
#[verifier::external_body]
pub(crate) fn read_u64_be(reader: &mut &[u8]) -> (r: Result<u64, std::io::Error>)
    ensures
        old(reader)@.len() >= 8 ==> (r matches Ok(v) && v == u64_from_be(old(reader)@)
            && final(reader)@ == old(reader)@.skip(8)),
        old(reader)@.len() < 8 ==> r is Err,
{
    reader.read_u64::<BigEndian>()
}

/// `Read::read_exact` on a byte slice into the whole of `buf`: when the slice
/// holds at least `buf.len()` bytes they are copied into `buf` and consumed;
/// otherwise the read fails (`UnexpectedEof`). What `buf` and the slice hold
/// after a failure is left open, as std documents it; `buf` keeps its length.
#[verifier::external_body]
pub(crate) fn read_exact(reader: &mut &[u8], buf: &mut Vec<u8>) -> (r: Result<(), std::io::Error>)
    ensures
        final(buf)@.len() == old(buf)@.len(),
        old(reader)@.len() >= old(buf)@.len() ==> r is Ok && final(buf)@ == old(reader)@.take(
            old(buf)@.len() as int,
        ) && final(reader)@ == old(reader)@.skip(old(buf)@.len() as int),
        old(reader)@.len() < old(buf)@.len() ==> r is Err,
{
    std::io::Read::read_exact(reader, buf.as_mut_slice())
}

/// `Read::read_to_string` on a byte slice: all remaining bytes, decoded as
/// UTF-8, consumed; an error (and nothing decoded) when they are not UTF-8.
/// On a failure the position of the slice is left open.
#[verifier::external_body]
pub(crate) fn read_to_string(reader: &mut &[u8]) -> (r: Result<String, std::io::Error>)
    ensures
        valid_utf8(old(reader)@) ==> (r matches Ok(s) && s@ == decode_utf8(old(reader)@)
            && final(reader)@.len() == 0),
        !valid_utf8(old(reader)@) ==> r is Err,
{
    let mut s = String::new();
    match std::io::Read::read_to_string(reader, &mut s) {
        Ok(_) => Ok(s),
        Err(e) => Err(e),
    }
}

/// `std::str::from_utf8`, reduced to whether it accepts `bytes`.
#[verifier::external_body]
pub(crate) fn is_utf8(bytes: &[u8]) -> (r: bool)
    ensures
        r == valid_utf8(bytes@),
{
    std::str::from_utf8(bytes).is_ok()
}

/// `WriteBytesExt::write_u8` on a vector, which implements `Write` by
/// appending (growing as needed): the byte is appended and the write succeeds.
#[verifier::external_body]
pub(crate) fn write_u8(writer: &mut Vec<u8>, n: u8) -> (r: Result<(), std::io::Error>)
    ensures
        r is Ok,
        final(writer)@ == old(writer)@.push(n),
{
    writer.write_u8(n)
}

/// `WriteBytesExt::write_u16::<BigEndian>` on a vector: the two bytes of `n`,
/// most significant first, are appended and the write succeeds.
#[verifier::external_body]
pub(crate) fn write_u16_be(writer: &mut Vec<u8>, n: u16) -> (r: Result<(), std::io::Error>)
    ensures
        r is Ok,
        final(writer)@ == old(writer)@ + be16(n),
{
    writer.write_u16::<BigEndian>(n)
}

/// `WriteBytesExt::write_u32::<BigEndian>` on a vector: the four bytes of `n`,
/// most significant first, are appended and the write succeeds.
#[verifier::external_body]
pub(crate) fn write_u32_be(writer: &mut Vec<u8>, n: u32) -> (r: Result<(), std::io::Error>)
    ensures
        r is Ok,
        final(writer)@ == old(writer)@ + be32(n),
{
    writer.write_u32::<BigEndian>(n)
}

/// `WriteBytesExt::write_u64::<BigEndian>` on a vector: the eight bytes of `n`,
/// most significant first, are appended and the write succeeds.
#[verifier::external_body]
pub(crate) fn write_u64_be(writer: &mut Vec<u8>, n: u64) -> (r: Result<(), std::io::Error>)
    ensures
        r is Ok,
        final(writer)@ == old(writer)@ + be64(n),
{
    writer.write_u64::<BigEndian>(n)
}

} // verus!
