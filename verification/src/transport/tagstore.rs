//! The requests of a connection that wait for their responses, by tag.
use crate::error::{decimal_digits, numbered_message, Error};
use crate::transport::request::{deliver, Offer, RequestCallback, ResponseChunk};
use std::collections::HashMap;
use vstd::prelude::*;

verus! {

broadcast use vstd::std_specs::hash::group_hash_axioms;

/// The number of chunks a request has been handed so far.
pub open spec fn sent_count(c: RequestCallback) -> nat {
    match c.sent {
        Some(s) => s as nat,
        None => 0,
    }
}

/// A request that has been handed all the chunks its response announced.
pub open spec fn is_complete(c: RequestCallback) -> bool {
    c.sent is Some && c.total is Some && c.sent == c.total
}

/// The callback after one more chunk of a response announcing `total`
/// chunks: one more chunk counted, and the total taken from the first chunk.
pub open spec fn after_chunk(c: RequestCallback, total: u16) -> RequestCallback {
    RequestCallback {
        sent: Some((sent_count(c) + 1) as u16),
        total: Some(
            match c.total {
                Some(t) => t,
                None => total,
            },
        ),
        ..c
    }
}

/// The message that refuses a chunk for the tag `tag`, which no request holds.
pub open spec fn missing_tag_text(tag: u16) -> Seq<char> {
    "Received result for non existing tag "@ + decimal_digits(tag as nat)
}

/// The waiting requests, by tag, and the chunks handed to them so far.
pub struct TagStore {
    hash_map: HashMap<u16, RequestCallback>,
    offered: Ghost<Seq<Offer>>,
}

impl View for TagStore {
    type V = Map<u16, RequestCallback>;

    closed spec fn view(&self) -> Map<u16, RequestCallback> {
        self.hash_map@
    }
}

impl TagStore {
    /// The chunks handed to the senders of waiting requests, in the order
    /// they were handed over, each once.
    pub closed spec fn offers(&self) -> Seq<Offer> {
        self.offered@
    }

    /// Every request is stored under its own tag.
    pub open spec fn wf(&self) -> bool {
        forall|t: u16| #[trigger] self@.contains_key(t) ==> self@[t].tag == t
    }

    /// An empty store with room for `capacity` requests.
    pub fn new(capacity: usize) -> (s: Self)
        ensures
            s.wf(),
            s@ == Map::<u16, RequestCallback>::empty(),
            s.offers() == Seq::<Offer>::empty(),
    {
        TagStore { hash_map: HashMap::with_capacity(capacity), offered: Ghost(Seq::empty()) }
    }

    /// Whether no request waits.
    pub fn is_empty(&self) -> (r: bool)
        ensures
            r == (self@ == Map::<u16, RequestCallback>::empty()),
    {
        let r = self.hash_map.is_empty();
        proof {
            if r {
                assert(self@ =~= Map::<u16, RequestCallback>::empty());
            } else {
                assert(self@.dom().len() > 0);
                assert(self@ != Map::<u16, RequestCallback>::empty());
            }
        }
        r
    }

    /// Stores `req` under its tag, in place of any request that had it.
    pub fn add(&mut self, req: RequestCallback)
        requires
            old(self).wf(),
        ensures
            final(self).wf(),
            final(self)@ == old(self)@.insert(req.tag, req),
            final(self).offers() == old(self).offers(),
    {
        let tag = req.tag;
        self.hash_map.insert(tag, req);
    }

    /// Puts `callback` back after a chunk was offered to it: it stays only
    /// when the chunk was delivered and its response is not yet complete.
    pub fn record_delivery(&mut self, callback: RequestCallback, delivered: bool)
        requires
            old(self).wf(),
            !old(self)@.contains_key(callback.tag),
            callback.sent is Some,
            callback.total is Some,
        ensures
            final(self).wf(),
            final(self)@ == if delivered && !is_complete(callback) {
                old(self)@.insert(callback.tag, callback)
            } else {
                old(self)@
            },
            final(self).offers() == old(self).offers(),
    {
        if !delivered {
            return;
        }
        let done = match (callback.sent, callback.total) {
            (Some(s), Some(t)) => s == t,
            _ => true,
        };
        if !done {
            let tag = callback.tag;
            self.hash_map.insert(tag, callback);
        }
    }

    /// Hands `chunk` to the request its tag names and counts it; the request
    /// leaves the store once all chunks its response announced were counted,
    /// or when its receiver is gone. A chunk for a tag that no request holds
    /// is refused.
    pub fn add_response(&mut self, chunk: ResponseChunk) -> (r: Result<(), Error>)
        requires
            old(self).wf(),
            old(self)@.contains_key(chunk.tag) ==> sent_count(old(self)@[chunk.tag]) < u16::MAX,
        ensures
            final(self).wf(),
            !old(self)@.contains_key(chunk.tag) ==> (r matches Err(Error::ClientError(msg)) && msg@
                == missing_tag_text(chunk.tag) && final(self)@ == old(self)@ && final(self).offers()
                == old(self).offers()),
            old(self)@.contains_key(chunk.tag) ==> {
                let c = after_chunk(old(self)@[chunk.tag], chunk.total);
                &&& r is Ok
                &&& final(self).offers() == old(self).offers().push(
                    (old(self)@[chunk.tag].tx, chunk.tag, chunk.part, chunk.total, chunk.data@),
                )
                &&& final(self)@ == old(self)@.remove(chunk.tag) || (final(self)@ == old(
                    self,
                )@.insert(chunk.tag, c) && !is_complete(c))
            },
    {
        let tag = chunk.tag;
        match self.hash_map.remove(&tag) {
            None => {
                assert(self@ =~= old(self)@);
                Err(
                    Error::ClientError(
                        numbered_message("Received result for non existing tag ", tag as u64),
                    ),
                )
            },
            Some(mut callback) => {
                let sent = match callback.sent {
                    Some(s) => s,
                    None => 0,
                };
                callback.sent = Some(sent + 1);
                if callback.total.is_none() {
                    callback.total = Some(chunk.total);
                }
                let delivery = deliver(&callback.tx, chunk, &mut self.offered);
                self.record_delivery(callback, delivery.is_ok());
                Ok(())
            },
        }
    }
}

} // verus!
