//! Values stored in and fetched from a memcached server, and the request
//! packets of the client's get and set commands.
use crate::codec::header::{
    header_bytes, header_from_bytes, header_readable, lemma_header_from_bytes_roundtrip, zero_header,
    Magic, Opcode, PacketHeader, HEADER_LEN,
};
use crate::codec::wire::{
    be32, is_utf8, read_exact, read_to_string, u16_from_be, u32_from_be, write_u32_be,
};
use crate::error::Error;
use vstd::prelude::*;
use vstd::string::StringSliceAdditionalSpecFns;
use vstd::utf8::{decode_utf8, encode_utf8, valid_utf8};

verus! {

/// Longest key, in bytes, that the client sends to a server.
pub const MAX_KEY_LEN: usize = 250;

/// A type whose values can be decoded from the value bytes of a response.
pub trait FromMemcacheValue: Sized {
    /// The inputs the decoder is meant for: `input` holds the bytes of the
    /// response from the value on, `size` is the announced value length.
    spec fn spec_accepts(input: Seq<u8>, size: nat) -> bool;

    /// `value` is what decoding `input` gives for a value of `size` bytes
    /// stored with `flags`.
    spec fn spec_decodes(input: Seq<u8>, size: nat, flags: u32, value: Self) -> bool;

    /// What remains of `input` after a value of `size` bytes was decoded from it.
    spec fn spec_rest(input: Seq<u8>, size: nat) -> Seq<u8>;

    /// Decoding `input` is refused with the error `e`.
    spec fn spec_rejects(input: Seq<u8>, size: nat, flags: u32, e: Error) -> bool;

    /// Whether the decoder is meant for `input`.
    fn accepts(input: &[u8], size: usize) -> (r: bool)
        ensures
            r == Self::spec_accepts(input@, size as nat),
    ;

    /// Decodes a value of `size` bytes, stored with `flags`, from the front of `read`.
    fn from_memcache_value(read: &mut &[u8], size: usize, flags: u32) -> (r: Result<Self, Error>)
        requires
            Self::spec_accepts(old(read)@, size as nat),
        ensures
            match r {
                Ok(v) => Self::spec_decodes(old(read)@, size as nat, flags, v) && final(read)@
                    == Self::spec_rest(old(read)@, size as nat),
                Err(e) => Self::spec_rejects(old(read)@, size as nat, flags, e),
            },
    ;
}

/// A type whose values can be stored on a memcached server.
pub trait ToMemcacheValue {
    /// The flags stored with the value.
    spec fn spec_flags(&self) -> u32;

    /// The bytes the value is stored as.
    spec fn spec_bytes(&self) -> Seq<u8>;

    /// Writing the value out is refused with an error.
    spec fn spec_write_fails(&self) -> bool;

    /// The flags stored with the value.
    fn get_flags(&self) -> (r: u32)
        ensures
            r == self.spec_flags(),
    ;

    /// The number of bytes the value is stored as.
    fn get_length(&self) -> (r: usize)
        ensures
            r == self.spec_bytes().len(),
    ;

    /// Appends the bytes of the value to `stream`.
    fn write_to(&self, stream: &mut Vec<u8>) -> (r: Result<(), Error>)
        ensures
            match r {
                Ok(_) => final(stream)@ == old(stream)@ + self.spec_bytes(),
                Err(_) => self.spec_write_fails(),
            },
    ;
}

impl FromMemcacheValue for Vec<u8> {
    /// At least `size` bytes remain.
    open spec fn spec_accepts(input: Seq<u8>, size: nat) -> bool {
        input.len() >= size
    }

    /// The value is the next `size` bytes.
    open spec fn spec_decodes(input: Seq<u8>, size: nat, flags: u32, value: Self) -> bool {
        value@ == input.take(size as int)
    }

    /// The bytes after the value.
    open spec fn spec_rest(input: Seq<u8>, size: nat) -> Seq<u8> {
        input.skip(size as int)
    }

    open spec fn spec_rejects(input: Seq<u8>, size: nat, flags: u32, e: Error) -> bool {
        false
    }

    fn accepts(input: &[u8], size: usize) -> (r: bool) {
        input.len() >= size
    }

    /// Exactly the next `size` bytes, which are consumed.
    fn from_memcache_value(read: &mut &[u8], size: usize, _flags: u32) -> (r: Result<Self, Error>)
        ensures
            r matches Ok(v) && v@.len() == size && v@ == old(read)@.subrange(0, size as int)
                && final(read)@ == old(read)@.subrange(size as int, old(read)@.len() as int),
    {
        let mut buf: Vec<u8> = vec![0u8; size];
        match read_exact(read, &mut buf) {
            Ok(()) => Ok(buf),
            Err(e) => Err(Error::Io(e)),
        }
    }
}

impl FromMemcacheValue for String {
    /// Everything that remains is UTF-8.
    open spec fn spec_accepts(input: Seq<u8>, size: nat) -> bool {
        valid_utf8(input)
    }

    /// The value is everything that remains, decoded as UTF-8; the announced
    /// size is not consulted.
    open spec fn spec_decodes(input: Seq<u8>, size: nat, flags: u32, value: Self) -> bool {
        value@ == decode_utf8(input)
    }

    /// Nothing: the value takes everything.
    open spec fn spec_rest(input: Seq<u8>, size: nat) -> Seq<u8> {
        Seq::empty()
    }

    open spec fn spec_rejects(input: Seq<u8>, size: nat, flags: u32, e: Error) -> bool {
        false
    }

    fn accepts(input: &[u8], _size: usize) -> (r: bool) {
        is_utf8(input)
    }

    fn from_memcache_value(read: &mut &[u8], _size: usize, _flags: u32) -> (r: Result<Self, Error>) {
        match read_to_string(read) {
            Ok(s) => Ok(s),
            Err(e) => Err(Error::Io(e)),
        }
    }
}

impl ToMemcacheValue for String {
    open spec fn spec_flags(&self) -> u32 {
        0
    }

    /// The UTF-8 encoding of the text.
    open spec fn spec_bytes(&self) -> Seq<u8> {
        encode_utf8(self@)
    }

    open spec fn spec_write_fails(&self) -> bool {
        false
    }

    fn get_flags(&self) -> (r: u32) {
        0
    }

    fn get_length(&self) -> (r: usize) {
        self.as_str().as_bytes().len()
    }

    fn write_to(&self, stream: &mut Vec<u8>) -> (r: Result<(), Error>) {
        let bytes = self.as_str().as_bytes();
        stream.extend_from_slice(bytes);
        assert(stream@ =~= old(stream)@ + bytes@);
        Ok(())
    }
}

/// The message that refuses an over-long key.
pub open spec fn key_too_long_text() -> Seq<char> {
    "key is too long"@
}

/// The header of a get request for a key of `key_len` bytes.
pub open spec fn get_request_header(key_len: nat) -> PacketHeader {
    PacketHeader {
        magic: Magic::Request.spec_code(),
        opcode: Opcode::Get.spec_code(),
        key_length: key_len as u16,
        total_body_length: key_len as u32,
        ..zero_header()
    }
}

/// The packet of a get request for `key`: header, then the key.
pub open spec fn get_request_bytes(key: Seq<u8>) -> Seq<u8> {
    header_bytes(get_request_header(key.len())) + key
}

/// The header of a set request for a key of `key_len` bytes and a value of
/// `value_len` bytes; the body length keeps the low 32 bits of the sum.
pub open spec fn set_request_header(key_len: nat, value_len: nat) -> PacketHeader {
    PacketHeader {
        magic: Magic::Request.spec_code(),
        opcode: Opcode::SetValue.spec_code(),
        key_length: key_len as u16,
        extras_length: 8,
        total_body_length: (8 + key_len + value_len) as u32,
        ..zero_header()
    }
}

/// The packet of a set request: header, flags, expiration, key, value.
pub open spec fn set_request_bytes(key: Seq<u8>, flags: u32, expiration: u32, value: Seq<u8>) -> Seq<
    u8,
> {
    header_bytes(set_request_header(key.len(), value.len())) + be32(flags) + be32(expiration) + key
        + value
}

/// The header of a request packet reads back as the header it was built
/// from, and the rest of the packet follows it: for a get request the key,
/// for a set request the flags, expiration, key and value.
pub proof fn lemma_request_headers_read_back(
    key: Seq<u8>,
    flags: u32,
    expiration: u32,
    value: Seq<u8>,
)
    ensures
        header_readable(get_request_bytes(key)),
        header_from_bytes(get_request_bytes(key)) == get_request_header(key.len()),
        get_request_bytes(key).skip(HEADER_LEN as int) == key,
        header_readable(set_request_bytes(key, flags, expiration, value)),
        header_from_bytes(set_request_bytes(key, flags, expiration, value)) == set_request_header(
            key.len(),
            value.len(),
        ),
        set_request_bytes(key, flags, expiration, value).skip(HEADER_LEN as int) == be32(flags)
            + be32(expiration) + key + value,
{
    lemma_header_from_bytes_roundtrip(get_request_header(key.len()), key);
    let set_rest = be32(flags) + be32(expiration) + key + value;
    lemma_header_from_bytes_roundtrip(set_request_header(key.len(), value.len()), set_rest);
    assert(set_request_bytes(key, flags, expiration, value) =~= header_bytes(
        set_request_header(key.len(), value.len()),
    ) + set_rest);
}

/// Decoding a byte value takes exactly the announced number of bytes from
/// the front of the input, and the value followed by what remains is the
/// input again.
pub proof fn lemma_byte_value_decoding(input: Seq<u8>, size: nat, flags: u32, v: Vec<u8>)
    requires
        <Vec<u8> as FromMemcacheValue>::spec_accepts(input, size),
        <Vec<u8> as FromMemcacheValue>::spec_decodes(input, size, flags, v),
    ensures
        size <= input.len(),
        v@.len() == size,
        forall|i: int| 0 <= i < size ==> #[trigger] v@[i] == input[i],
        v@ + <Vec<u8> as FromMemcacheValue>::spec_rest(input, size) == input,
{
    assert(v@ + <Vec<u8> as FromMemcacheValue>::spec_rest(input, size) =~= input);
}

/// The length fields of a request packet describe the packet: the body
/// length counts every byte after the 24-byte header (when it fits in 32
/// bits), the key length is the length of the key (when it fits in 16 bits),
/// and a set request announces its 8 bytes of extras.
pub proof fn lemma_request_lengths(key: Seq<u8>, flags: u32, expiration: u32, value: Seq<u8>)
    ensures
        key.len() < 0x1_0000_0000 ==> get_request_bytes(key).len() == HEADER_LEN + u32_from_be(
            get_request_bytes(key).subrange(8, 12),
        ),
        key.len() < 0x1_0000 ==> u16_from_be(get_request_bytes(key).subrange(2, 4)) == key.len(),
        8 + key.len() + value.len() < 0x1_0000_0000 ==> set_request_bytes(
            key,
            flags,
            expiration,
            value,
        ).len() == HEADER_LEN + u32_from_be(
            set_request_bytes(key, flags, expiration, value).subrange(8, 12),
        ),
        key.len() < 0x1_0000 ==> u16_from_be(
            set_request_bytes(key, flags, expiration, value).subrange(2, 4),
        ) == key.len(),
        set_request_bytes(key, flags, expiration, value)[4] == 8,
{
    lemma_request_headers_read_back(key, flags, expiration, value);
}

fn key_too_long() -> (e: Error)
    ensures
        e matches Error::ClientError(msg) && msg@ == key_too_long_text(),
{
    Error::ClientError(String::from_str("key is too long"))
}

/// The request packet that asks for the value stored under `key`.
pub fn get_request(key: &str) -> (r: Result<Vec<u8>, Error>)
    ensures
        key.spec_bytes().len() > MAX_KEY_LEN ==> (r matches Err(Error::ClientError(msg)) && msg@
            == key_too_long_text()),
        key.spec_bytes().len() <= MAX_KEY_LEN ==> (r matches Ok(bytes) && bytes@ == get_request_bytes(
            key.spec_bytes(),
        )),
        r matches Ok(bytes) ==> bytes@.len() == HEADER_LEN + u32_from_be(bytes@.subrange(8, 12))
            && u16_from_be(bytes@.subrange(2, 4)) == key.spec_bytes().len() && bytes@.subrange(
            HEADER_LEN as int,
            bytes@.len() as int,
        ) == key.spec_bytes(),
{
    let key_bytes = key.as_bytes();
    let len = key_bytes.len();
    if len > MAX_KEY_LEN {
        return Err(key_too_long());
    }
    let header = PacketHeader {
        magic: Magic::Request.code(),
        opcode: Opcode::Get.code(),
        key_length: len as u16,
        total_body_length: len as u32,
        ..Default::default()
    };
    let mut request: Vec<u8> = Vec::new();
    let _ = header.write(&mut request);
    request.extend_from_slice(key_bytes);
    assert(request@ =~= get_request_bytes(key.spec_bytes()));
    proof {
        lemma_request_lengths(key.spec_bytes(), 0, 0, Seq::empty());
        lemma_request_headers_read_back(key.spec_bytes(), 0, 0, Seq::empty());
        assert(request@.subrange(HEADER_LEN as int, request@.len() as int) =~= request@.skip(
            HEADER_LEN as int,
        ));
    }
    Ok(request)
}

/// The request packet that stores `value` under `key`, to expire after
/// `expiration` (as the protocol counts it).
pub fn set_request<T: ToMemcacheValue>(key: &str, value: &T, expiration: u32) -> (r: Result<
    Vec<u8>,
    Error,
>)
    requires
        value.spec_bytes().len() + 8 + MAX_KEY_LEN <= usize::MAX,
    ensures
        key.spec_bytes().len() > MAX_KEY_LEN ==> (r matches Err(Error::ClientError(msg)) && msg@
            == key_too_long_text()),
        key.spec_bytes().len() <= MAX_KEY_LEN ==> match r {
            Ok(bytes) => bytes@ == set_request_bytes(
                key.spec_bytes(),
                value.spec_flags(),
                expiration,
                value.spec_bytes(),
            ),
            Err(_) => value.spec_write_fails(),
        },
        r matches Ok(bytes) ==> {
            &&& 8 + key.spec_bytes().len() + value.spec_bytes().len() < 0x1_0000_0000 ==> bytes@.len()
                == HEADER_LEN + u32_from_be(bytes@.subrange(8, 12))
            &&& u16_from_be(bytes@.subrange(2, 4)) == key.spec_bytes().len()
            &&& bytes@[4] == 8
        },
{
    let key_bytes = key.as_bytes();
    let len = key_bytes.len();
    if len > MAX_KEY_LEN {
        return Err(key_too_long());
    }
    let value_len = value.get_length();
    let body_len: usize = 8 + len + value_len;
    let header = PacketHeader {
        magic: Magic::Request.code(),
        opcode: Opcode::SetValue.code(),
        key_length: len as u16,
        extras_length: 8,
        total_body_length: #[verifier::truncate] (body_len as u32),
        ..Default::default()
    };
    let mut request: Vec<u8> = Vec::new();
    let _ = header.write(&mut request);
    let _ = write_u32_be(&mut request, value.get_flags());
    let _ = write_u32_be(&mut request, expiration);
    request.extend_from_slice(key_bytes);
    match value.write_to(&mut request) {
        Ok(()) => {},
        Err(e) => return Err(e),
    }
    assert(request@ =~= set_request_bytes(
        key.spec_bytes(),
        value.spec_flags(),
        expiration,
        value.spec_bytes(),
    ));
    proof {
        lemma_request_lengths(key.spec_bytes(), value.spec_flags(), expiration, value.spec_bytes());
    }
    Ok(request)
}

} // verus!
