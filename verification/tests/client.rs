use memcache_async_rs::client::{get_request, set_request, FromMemcacheValue, ToMemcacheValue};
use memcache_async_rs::error::Error;

#[test]
fn get_request_bytes() {
    let r = get_request("ab").unwrap();
    let mut expected = vec![0x80u8, 0x00, 0x00, 0x02, 0x00, 0x00, 0x00, 0x00, 0x00, 0x00, 0x00, 0x02];
    expected.extend_from_slice(&[0u8; 12]);
    expected.extend_from_slice(b"ab");
    assert_eq!(r, expected);
}

#[test]
fn set_request_bytes() {
    let value = String::from("xyz");
    let r = set_request("k", &value, 3600).unwrap();
    let mut expected = vec![0x80u8, 0x01, 0x00, 0x01, 0x08, 0x00, 0x00, 0x00, 0x00, 0x00, 0x00, 12];
    expected.extend_from_slice(&[0u8; 12]);
    expected.extend_from_slice(&[0, 0, 0, 0]);
    expected.extend_from_slice(&[0, 0, 0x0e, 0x10]);
    expected.extend_from_slice(b"k");
    expected.extend_from_slice(b"xyz");
    assert_eq!(r, expected);
}

#[test]
fn long_keys_are_refused() {
    let key = "k".repeat(251);
    match get_request(&key) {
        Err(Error::ClientError(msg)) => assert_eq!(msg, "key is too long"),
        other => panic!("unexpected {:?}", other),
    }
    match set_request(&key, &String::from("v"), 0) {
        Err(Error::ClientError(msg)) => assert_eq!(msg, "key is too long"),
        other => panic!("unexpected {:?}", other),
    }
    let key = "k".repeat(250);
    assert_eq!(get_request(&key).unwrap().len(), 24 + 250);
}

#[test]
fn key_length_counts_bytes() {
    let key = "é".repeat(126);
    assert!(get_request(&key).is_err());
    let key = "é".repeat(125);
    let r = get_request(&key).unwrap();
    assert_eq!(&r[2..4], &[0, 250]);
}

#[test]
fn string_value_encoding() {
    let s = String::from("héllo");
    assert_eq!(s.get_flags(), 0);
    assert_eq!(s.get_length(), 6);
    let mut out = vec![1u8];
    s.write_to(&mut out).unwrap();
    assert_eq!(out, [&[1u8][..], "héllo".as_bytes()].concat());
}

#[test]
fn vec_value_decoding() {
    let mut input: &[u8] = &[1, 2, 3, 4];
    let v = Vec::<u8>::from_memcache_value(&mut input, 3, 0).unwrap();
    assert_eq!(v, vec![1, 2, 3]);
    assert_eq!(input, &[4u8][..]);
    assert!(Vec::<u8>::accepts(&[1, 2, 3], 3));
    assert!(!Vec::<u8>::accepts(&[1, 2], 3));
}

#[test]
fn string_value_decoding() {
    let mut input: &[u8] = b"abc";
    let v = String::from_memcache_value(&mut input, 1, 0).unwrap();
    assert_eq!(v, "abc");
    assert!(input.is_empty());
    assert!(String::accepts(b"abc", 0));
    assert!(!String::accepts(&[0xc3], 0));
}
