use memcache_async_rs::codec::header::{Magic, Opcode, PacketHeader, ResponseStatus};
use memcache_async_rs::error::Error;

#[test]
fn test_packet_header_read_write() {
    let header = PacketHeader {
        opcode: Opcode::Get.code(),
        magic: Magic::Request.code(),
        ..Default::default()
    };
    let mut v: Vec<u8> = Vec::with_capacity(32);
    let _ = header.write(&mut v);
    let mut slice: &[u8] = v.as_mut_slice();
    let res = PacketHeader::read(&mut slice);
    assert_eq!(true, res.is_ok());
    assert_eq!(Opcode::Get.code(), res.unwrap().opcode);
}

fn sample_header() -> PacketHeader {
    PacketHeader {
        magic: 0x81,
        opcode: 0x01,
        key_length: 0x0203,
        extras_length: 0x04,
        data_type: 0x00,
        vbucket_id_or_status: 0x0506,
        total_body_length: 0x0708090a,
        opaque: 0x0b0c0d0e,
        cas: 0x0f10111213141516,
    }
}

const SAMPLE_BYTES: [u8; 24] = [
    0x81, 0x01, 0x02, 0x03, 0x04, 0x00, 0x05, 0x06, 0x07, 0x08, 0x09, 0x0a, 0x0b, 0x0c, 0x0d,
    0x0e, 0x0f, 0x10, 0x11, 0x12, 0x13, 0x14, 0x15, 0x16,
];

#[test]
fn header_write_is_big_endian() {
    let mut v: Vec<u8> = vec![0xaa];
    assert!(sample_header().write(&mut v).is_ok());
    assert_eq!(v.len(), 25);
    assert_eq!(v[0], 0xaa);
    assert_eq!(&v[1..], &SAMPLE_BYTES[..]);
}

#[test]
fn header_read_takes_fields_and_leaves_rest() {
    let mut input: Vec<u8> = SAMPLE_BYTES.to_vec();
    input.extend_from_slice(&[9, 8, 7]);
    let mut slice: &[u8] = &input;
    let h = PacketHeader::read(&mut slice).unwrap();
    assert_eq!(h.magic, 0x81);
    assert_eq!(h.opcode, 0x01);
    assert_eq!(h.key_length, 0x0203);
    assert_eq!(h.extras_length, 0x04);
    assert_eq!(h.data_type, 0x00);
    assert_eq!(h.vbucket_id_or_status, 0x0506);
    assert_eq!(h.total_body_length, 0x0708090a);
    assert_eq!(h.opaque, 0x0b0c0d0e);
    assert_eq!(h.cas, 0x0f10111213141516);
    assert_eq!(slice, &[9u8, 8, 7][..]);
}

#[test]
fn header_roundtrip_with_response_magic() {
    let mut v = Vec::new();
    sample_header().write(&mut v).unwrap();
    let mut slice: &[u8] = &v;
    let h = PacketHeader::read(&mut slice).unwrap();
    let mut again = Vec::new();
    h.write(&mut again).unwrap();
    assert_eq!(again, v);
    assert!(slice.is_empty());
}

#[test]
fn header_read_rejects_unknown_magic() {
    let mut input = SAMPLE_BYTES.to_vec();
    input[0] = 7;
    let mut slice: &[u8] = &input;
    match PacketHeader::read(&mut slice) {
        Err(Error::ClientError(msg)) => {
            assert_eq!(msg, "Bad magic number in response header: 7")
        }
        other => panic!("unexpected {:?}", other),
    }
    assert_eq!(slice.len(), 23);
    input[0] = 0x82;
    let mut slice: &[u8] = &input;
    match PacketHeader::read(&mut slice) {
        Err(Error::ClientError(msg)) => {
            assert_eq!(msg, "Bad magic number in response header: 130")
        }
        other => panic!("unexpected {:?}", other),
    }
}

#[test]
fn header_read_short_input_is_io_error() {
    let mut empty: &[u8] = &[];
    assert!(matches!(PacketHeader::read(&mut empty), Err(Error::Io(_))));
    let mut short: &[u8] = &SAMPLE_BYTES[..23];
    assert!(matches!(PacketHeader::read(&mut short), Err(Error::Io(_))));
}

#[test]
fn wire_codes() {
    assert_eq!(Magic::Request.code(), 0x80);
    assert_eq!(Magic::Response.code(), 0x81);
    assert_eq!(Opcode::Get.code(), 0x00);
    assert_eq!(Opcode::SetValue.code(), 0x01);
    assert_eq!(Opcode::Flush.code(), 0x08);
    assert_eq!(Opcode::Stat.code(), 0x10);
    assert_eq!(Opcode::Touch.code(), 0x1c);
    assert_eq!(Opcode::StartAuth.code(), 0x21);
    assert_eq!(ResponseStatus::NoError.code(), 0x00);
    assert_eq!(ResponseStatus::KeyNotFound.code(), 0x01);
    assert_eq!(ResponseStatus::AuthenticationRequired.code(), 0x20);
}

#[test]
fn default_header_is_zero() {
    let mut v = Vec::new();
    PacketHeader::default().write(&mut v).unwrap();
    assert_eq!(v, vec![0u8; 24]);
}
