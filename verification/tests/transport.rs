use memcache_async_rs::error::Error;
use memcache_async_rs::transport::request::{Request, RequestCallback, ResponseChunk};
use memcache_async_rs::transport::tagstore::TagStore;
use memcache_async_rs::transport::tcp::{TransportCore, TransportState};
use tokio::sync::mpsc::unbounded_channel;

fn chunk(tag: u16, part: u16, total: u16) -> ResponseChunk {
    ResponseChunk { tag, part, total, data: vec![part as u8] }
}

#[test]
fn tag_store_single_chunk_response() {
    let (tx, mut rx) = unbounded_channel();
    let mut store = TagStore::new(4);
    assert!(store.is_empty());
    store.add(RequestCallback { tag: 7, sent: None, total: None, tx });
    assert!(!store.is_empty());
    assert!(store.add_response(chunk(7, 1, 1)).is_ok());
    assert!(store.is_empty());
    let got = rx.try_recv().unwrap();
    assert_eq!((got.tag, got.part, got.total, got.data), (7, 1, 1, vec![1]));
}

#[test]
fn tag_store_multi_chunk_response() {
    let (tx, mut rx) = unbounded_channel();
    let mut store = TagStore::new(4);
    store.add(RequestCallback { tag: 3, sent: None, total: None, tx });
    store.add_response(chunk(3, 1, 2)).unwrap();
    assert!(!store.is_empty());
    store.add_response(chunk(3, 2, 5)).unwrap();
    assert!(store.is_empty());
    assert_eq!(rx.try_recv().unwrap().part, 1);
    assert_eq!(rx.try_recv().unwrap().part, 2);
}

#[test]
fn tag_store_unknown_tag() {
    let mut store = TagStore::new(4);
    match store.add_response(chunk(9, 1, 1)) {
        Err(Error::ClientError(msg)) => assert_eq!(msg, "Received result for non existing tag 9"),
        other => panic!("unexpected {:?}", other),
    }
}

#[test]
fn tag_store_drops_closed_receiver() {
    let (tx, rx) = unbounded_channel();
    drop(rx);
    let mut store = TagStore::new(4);
    store.add(RequestCallback { tag: 1, sent: None, total: None, tx });
    assert!(store.add_response(chunk(1, 1, 3)).is_ok());
    assert!(store.is_empty());
}

#[test]
fn tag_store_record_delivery() {
    let (tx, _rx) = unbounded_channel();
    let mut store = TagStore::new(4);
    store.record_delivery(RequestCallback { tag: 2, sent: Some(1), total: Some(2), tx }, true);
    assert!(!store.is_empty());
    let (tx, _rx2) = unbounded_channel();
    let mut other = TagStore::new(4);
    other.record_delivery(RequestCallback { tag: 2, sent: Some(2), total: Some(2), tx }, true);
    assert!(other.is_empty());
    let (tx, _rx3) = unbounded_channel();
    let mut third = TagStore::new(4);
    third.record_delivery(RequestCallback { tag: 2, sent: Some(1), total: Some(2), tx }, false);
    assert!(third.is_empty());
}

#[test]
fn transport_core_new() {
    let core = TransportCore::new();
    assert_eq!(core.request_id, 1);
    assert_eq!(core.response_id, 1);
    assert_eq!(core.state, TransportState::Pending);
    assert!(core.write_buffer.is_empty());
    assert_eq!(core.read_buffer, vec![0u8; 1600]);
    assert!(core.tag_store.is_empty());
}

#[test]
fn responses_go_to_requests_in_order() {
    let mut core = TransportCore::new();
    let (tx1, mut rx1) = unbounded_channel();
    let (tx2, mut rx2) = unbounded_channel();
    core.write_request(Request { data: vec![1, 2], tx: tx1 }).unwrap();
    core.write_request(Request { data: vec![3], tx: tx2 }).unwrap();
    assert_eq!(core.write_buffer, vec![1, 2, 3]);
    assert_eq!(core.request_id, 3);
    core.read_buffer[..8].copy_from_slice(&[10, 11, 12, 13, 14, 15, 16, 17]);
    core.read_response(8).unwrap();
    core.read_buffer[..9].copy_from_slice(&[20, 21, 22, 23, 24, 25, 26, 27, 28]);
    core.read_response(9).unwrap();
    assert_eq!(core.response_id, 3);
    assert!(core.tag_store.is_empty());
    let first = rx1.try_recv().unwrap();
    assert_eq!((first.tag, first.data.len(), first.data[0]), (1, 8, 10));
    let second = rx2.try_recv().unwrap();
    assert_eq!((second.tag, second.data.len(), second.data[0]), (2, 9, 20));
}

#[test]
fn short_read_is_refused() {
    let mut core = TransportCore::new();
    match core.read_response(7) {
        Err(Error::UnknownError(msg)) => assert_eq!(msg, "Invalid header received"),
        other => panic!("unexpected {:?}", other),
    }
    assert_eq!(core.response_id, 1);
}

#[test]
fn response_without_request_is_refused() {
    let mut core = TransportCore::new();
    match core.read_response(8) {
        Err(Error::ClientError(msg)) => assert_eq!(msg, "Received result for non existing tag 1"),
        other => panic!("unexpected {:?}", other),
    }
    assert_eq!(core.response_id, 2);
}

#[test]
fn response_chunk_of_read() {
    let mut core = TransportCore::new();
    core.read_buffer[0] = 42;
    let c = core.response_chunk(10);
    assert_eq!((c.tag, c.part, c.total, c.data.len(), c.data[0]), (1, 1, 1, 10, 42));
}

#[test]
fn request_tags_wrap_around() {
    let mut core = TransportCore::new();
    core.request_id = u16::MAX;
    let (tx, _rx) = unbounded_channel();
    core.write_request(Request { data: vec![], tx }).unwrap();
    assert_eq!(core.request_id, 0);
}

#[test]
fn loop_decisions() {
    let mut core = TransportCore::new();
    assert!(core.on_request(None));
    let (tx, _rx) = unbounded_channel();
    assert!(!core.on_request(Some(Request { data: vec![5], tx })));
    assert_eq!(core.state, TransportState::WritingToBuffer);
    assert!(!core.on_request(None));
    core.on_written();
    assert_eq!(core.state, TransportState::Pending);
    assert!(core.write_buffer.is_empty());
}
