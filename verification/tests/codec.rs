use memcache_async_rs::codec::header::PacketHeader;
use memcache_async_rs::codec::{
    get_response_is_decodable, parse_get_response, parse_header_only_response,
};
use memcache_async_rs::error::Error;

fn response(status: u16, extras: &[u8], key: &[u8], value: &[u8]) -> Vec<u8> {
    let header = PacketHeader {
        magic: 0x81,
        key_length: key.len() as u16,
        extras_length: extras.len() as u8,
        vbucket_id_or_status: status,
        total_body_length: (extras.len() + key.len() + value.len()) as u32,
        ..Default::default()
    };
    let mut v = Vec::new();
    header.write(&mut v).unwrap();
    v.extend_from_slice(extras);
    v.extend_from_slice(key);
    v.extend_from_slice(value);
    v
}

#[test]
fn header_only_response_ok() {
    let input = response(0, &[], &[], &[]);
    let mut slice: &[u8] = &input;
    assert!(parse_header_only_response(&mut slice).is_ok());
    assert!(slice.is_empty());
}

#[test]
fn header_only_response_status_error() {
    let input = response(2, &[], &[], &[]);
    let mut slice: &[u8] = &input;
    assert!(matches!(parse_header_only_response(&mut slice), Err(Error::MemcacheError(2))));
}

#[test]
fn header_only_response_bad_magic() {
    let mut input = response(0, &[], &[], &[]);
    input[0] = 0;
    let mut slice: &[u8] = &input;
    assert!(matches!(parse_header_only_response(&mut slice), Err(Error::ClientError(_))));
}

#[test]
fn get_response_value_bytes() {
    let input = response(0, &[0, 0, 0, 5], &[], b"hello");
    let mut slice: &[u8] = &input;
    let r: Option<Vec<u8>> = parse_get_response(&mut slice).unwrap();
    assert_eq!(r, Some(b"hello".to_vec()));
    assert!(slice.is_empty());
}

#[test]
fn get_response_value_string() {
    let input = response(0, &[0, 0, 0, 0], &[], "héllo".as_bytes());
    let mut slice: &[u8] = &input;
    let r: Option<String> = parse_get_response(&mut slice).unwrap();
    assert_eq!(r, Some(String::from("héllo")));
}

#[test]
fn get_response_key_not_found_skips_body() {
    let mut input = response(1, &[], &[], b"Not found");
    input.extend_from_slice(b"next");
    let mut slice: &[u8] = &input;
    let r: Option<Vec<u8>> = parse_get_response(&mut slice).unwrap();
    assert_eq!(r, None);
    assert_eq!(slice, b"next");
}

#[test]
fn get_response_key_not_found_short_body() {
    let mut input = response(1, &[], &[], b"Not found");
    input.truncate(input.len() - 2);
    let mut slice: &[u8] = &input;
    let r: Result<Option<Vec<u8>>, Error> = parse_get_response(&mut slice);
    assert!(matches!(r, Err(Error::Io(_))));
}

#[test]
fn get_response_server_error() {
    let input = response(4, &[], &[], b"Invalid arguments");
    let mut slice: &[u8] = &input;
    let r: Result<Option<Vec<u8>>, Error> = parse_get_response(&mut slice);
    assert!(matches!(r, Err(Error::MemcacheError(4))));
    assert_eq!(slice, b"Invalid arguments");
}

#[test]
fn get_response_missing_flags() {
    let input = response(0, &[], &[], &[]);
    let mut slice: &[u8] = &input;
    let r: Result<Option<Vec<u8>>, Error> = parse_get_response(&mut slice);
    assert!(matches!(r, Err(Error::Io(_))));
}

#[test]
fn decodable_check() {
    let good = response(0, &[0, 0, 0, 1], &[], b"abc");
    assert!(get_response_is_decodable::<Vec<u8>>(&good));
    assert!(get_response_is_decodable::<String>(&good));
    let mut short = good.clone();
    short.truncate(short.len() - 1);
    assert!(!get_response_is_decodable::<Vec<u8>>(&short));
    let bad_utf8 = response(0, &[0, 0, 0, 1], &[], &[0xff, 0xfe]);
    assert!(!get_response_is_decodable::<String>(&bad_utf8));
    assert!(get_response_is_decodable::<Vec<u8>>(&bad_utf8));
    let mut header_only = response(0, &[], &[], &[]);
    header_only[4] = 9;
    header_only.extend_from_slice(&[0, 0, 0, 0]);
    assert!(!get_response_is_decodable::<Vec<u8>>(&header_only));
    let not_found = response(1, &[], &[], &[]);
    assert!(get_response_is_decodable::<Vec<u8>>(&not_found));
}
