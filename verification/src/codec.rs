//! Encoding and decoding of memcached binary-protocol packets, and the
//! parsing of the responses to get and set requests.
pub mod header;
pub mod wire;

use crate::client::FromMemcacheValue;
use crate::codec::header::{
    header_failure, header_from_bytes, header_readable, is_known_magic, PacketHeader, ResponseStatus,
    HEADER_LEN,
};
use crate::codec::wire::{read_exact, read_u32_be, u32_from_be};
use crate::error::Error;
use vstd::prelude::*;
use vstd::slice::slice_subrange;

verus! {

/// Bytes of a get response before its value: the header and the flags.
pub const GET_VALUE_OFFSET: usize = 28;

/// The status a response header carries.
pub open spec fn status_of(input: Seq<u8>) -> u16 {
    header_from_bytes(input).vbucket_id_or_status
}

/// The flags of a successful get response.
pub open spec fn get_flags_of(input: Seq<u8>) -> u32 {
    u32_from_be(input.subrange(HEADER_LEN as int, GET_VALUE_OFFSET as int))
}

/// The value length a get response announces: its body without its extras.
pub open spec fn get_value_size_of(input: Seq<u8>) -> int {
    header_from_bytes(input).total_body_length - header_from_bytes(input).extras_length
}

/// A successful get response that holds its header and flags.
pub open spec fn get_response_has_value(input: Seq<u8>) -> bool {
    header_readable(input) && status_of(input) == ResponseStatus::NoError.spec_code()
        && input.len() >= GET_VALUE_OFFSET
}

/// Inputs that `parse_get_response` is meant for: where the response carries
/// a value, its extras fit in its body and the decoder of `V` accepts the
/// rest of the input.
pub open spec fn get_response_decodable<V: FromMemcacheValue>(input: Seq<u8>) -> bool {
    get_response_has_value(input) ==> {
        &&& header_from_bytes(input).extras_length <= header_from_bytes(input).total_body_length
        &&& V::spec_accepts(input.skip(GET_VALUE_OFFSET as int), get_value_size_of(input) as nat)
    }
}

/// A successful get response read as bytes gives the value bytes of the
/// response: those after the header and the four flag bytes, as many as the
/// body length in bytes 8 to 12 exceeds the extras length in byte 4; the
/// reader is left right after them.
pub proof fn lemma_get_response_byte_value(input: Seq<u8>, v: Vec<u8>)
    requires
        get_response_has_value(input),
        get_response_decodable::<Vec<u8>>(input),
        <Vec<u8> as FromMemcacheValue>::spec_decodes(
            input.skip(GET_VALUE_OFFSET as int),
            get_value_size_of(input) as nat,
            get_flags_of(input),
            v,
        ),
    ensures
        input[4] <= u32_from_be(input.subrange(8, 12)),
        v@.len() == u32_from_be(input.subrange(8, 12)) - input[4],
        v@ == input.subrange(
            GET_VALUE_OFFSET as int,
            GET_VALUE_OFFSET + u32_from_be(input.subrange(8, 12)) - input[4],
        ),
        <Vec<u8> as FromMemcacheValue>::spec_rest(
            input.skip(GET_VALUE_OFFSET as int),
            get_value_size_of(input) as nat,
        ) == input.subrange(
            GET_VALUE_OFFSET + u32_from_be(input.subrange(8, 12)) - input[4],
            input.len() as int,
        ),
{
    let size = u32_from_be(input.subrange(8, 12)) - input[4];
    assert(v@ =~= input.subrange(GET_VALUE_OFFSET as int, GET_VALUE_OFFSET + size));
    assert(input.skip(GET_VALUE_OFFSET as int).skip(size) =~= input.subrange(
        GET_VALUE_OFFSET + size,
        input.len() as int,
    ));
}

/// Reads the response to a get request off the front of `reader`: `None`
/// when the key is absent, the decoded value when it is there, the server's
/// status as an error otherwise.
pub fn parse_get_response<V: FromMemcacheValue>(reader: &mut &[u8]) -> (r: Result<Option<V>, Error>)
    requires
        get_response_decodable::<V>(old(reader)@),
    ensures
        !header_readable(old(reader)@) ==> (r matches Err(e) && header_failure(old(reader)@, e)),
        old(reader)@.len() > 0 && !is_known_magic(old(reader)@[0]) ==> final(reader)@ == old(
            reader,
        )@.skip(1),
        header_readable(old(reader)@) && status_of(old(reader)@)
            == ResponseStatus::KeyNotFound.spec_code() ==> {
            let end = HEADER_LEN + header_from_bytes(old(reader)@).total_body_length;
            if old(reader)@.len() >= end {
                r matches Ok(None) && final(reader)@ == old(reader)@.skip(end)
            } else {
                r matches Err(Error::Io(_))
            }
        },
        header_readable(old(reader)@) && status_of(old(reader)@)
            != ResponseStatus::KeyNotFound.spec_code() && status_of(old(reader)@)
            != ResponseStatus::NoError.spec_code() ==> (r matches Err(Error::MemcacheError(s)) && s
            == status_of(old(reader)@) && final(reader)@ == old(reader)@.skip(HEADER_LEN as int)),
        header_readable(old(reader)@) && status_of(old(reader)@) == ResponseStatus::NoError.spec_code()
            && old(reader)@.len() < GET_VALUE_OFFSET ==> (r matches Err(Error::Io(_))),
        get_response_has_value(old(reader)@) ==> match r {
            Ok(Some(v)) => V::spec_decodes(
                old(reader)@.skip(GET_VALUE_OFFSET as int),
                get_value_size_of(old(reader)@) as nat,
                get_flags_of(old(reader)@),
                v,
            ) && final(reader)@ == V::spec_rest(
                old(reader)@.skip(GET_VALUE_OFFSET as int),
                get_value_size_of(old(reader)@) as nat,
            ),
            Ok(None) => false,
            Err(e) => V::spec_rejects(
                old(reader)@.skip(GET_VALUE_OFFSET as int),
                get_value_size_of(old(reader)@) as nat,
                get_flags_of(old(reader)@),
                e,
            ),
        },
{
    let ghost input = reader@;
    let header = match PacketHeader::read(reader) {
        Ok(h) => h,
        Err(e) => return Err(e),
    };
    if header.vbucket_id_or_status == ResponseStatus::KeyNotFound.code() {
        let mut buffer: Vec<u8> = vec![0u8; header.total_body_length as usize];
        match read_exact(reader, &mut buffer) {
            Ok(()) => {},
            Err(e) => return Err(Error::Io(e)),
        }
        assert(input.skip(HEADER_LEN as int).skip(header.total_body_length as int) =~= input.skip(
            HEADER_LEN + header.total_body_length,
        ));
        return Ok(None);
    } else if header.vbucket_id_or_status != ResponseStatus::NoError.code() {
        return Err(Error::MemcacheError(header.vbucket_id_or_status));
    }
    let flags = match read_u32_be(reader) {
        Ok(v) => v,
        Err(e) => return Err(Error::Io(e)),
    };
    proof {
        assert(input.skip(HEADER_LEN as int) =~= input.subrange(
            HEADER_LEN as int,
            GET_VALUE_OFFSET as int,
        ) + input.skip(GET_VALUE_OFFSET as int));
        assert(input.skip(HEADER_LEN as int).skip(4) =~= input.skip(GET_VALUE_OFFSET as int));
    }
    let value_length = header.total_body_length as usize - header.extras_length as usize;
    match V::from_memcache_value(reader, value_length, flags) {
        Ok(v) => Ok(Some(v)),
        Err(e) => Err(e),
    }
}

/// Whether `parse_get_response` is meant for `input` (see
/// `get_response_decodable`), decided without consuming anything.
pub fn get_response_is_decodable<V: FromMemcacheValue>(input: &[u8]) -> (r: bool)
    ensures
        r == get_response_decodable::<V>(input@),
{
    let mut cursor: &[u8] = input;
    let header = match PacketHeader::read(&mut cursor) {
        Ok(h) => h,
        Err(_) => return true,
    };
    if header.vbucket_id_or_status != ResponseStatus::NoError.code() || input.len()
        < GET_VALUE_OFFSET {
        return true;
    }
    if header.extras_length as u32 > header.total_body_length {
        return false;
    }
    let rest = slice_subrange(input, GET_VALUE_OFFSET, input.len());
    assert(rest@ =~= input@.skip(GET_VALUE_OFFSET as int));
    let size = header.total_body_length as usize - header.extras_length as usize;
    V::accepts(rest, size)
}

/// Reads a response that carries nothing but its header, and reports the
/// server's status: `Ok` for success, the status as an error otherwise.
pub fn parse_header_only_response(reader: &mut &[u8]) -> (r: Result<(), Error>)
    ensures
        !header_readable(old(reader)@) ==> (r matches Err(e) && header_failure(old(reader)@, e)),
        old(reader)@.len() > 0 && !is_known_magic(old(reader)@[0]) ==> final(reader)@ == old(
            reader,
        )@.skip(1),
        header_readable(old(reader)@) ==> final(reader)@ == old(reader)@.skip(HEADER_LEN as int),
        header_readable(old(reader)@) && status_of(old(reader)@) == ResponseStatus::NoError.spec_code()
            ==> r is Ok,
        header_readable(old(reader)@) && status_of(old(reader)@)
            != ResponseStatus::NoError.spec_code() ==> (r matches Err(Error::MemcacheError(s)) && s
            == status_of(old(reader)@)),
{
    let header = match PacketHeader::read(reader) {
        Ok(h) => h,
        Err(e) => return Err(e),
    };
    if header.vbucket_id_or_status != ResponseStatus::NoError.code() {
        return Err(Error::MemcacheError(header.vbucket_id_or_status));
    }
    Ok(())
}

} // verus!
