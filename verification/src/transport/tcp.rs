//! The decisions of the loop that drives one connection: requests are tagged
//! in the order they are written, responses in the order they are read, and
//! each response goes to the request with its tag.
use crate::error::Error;
use crate::transport::request::{Request, RequestCallback, ResponseChunk};
use crate::transport::tagstore::{missing_tag_text, TagStore};
use vstd::prelude::*;
use vstd::slice::slice_subrange;

verus! {

/// Bytes the connection reads at most at once.
pub const READ_BUFFER_LEN: usize = 1600;

/// Fewest bytes a read must bring to be taken for a response.
pub const MIN_RESPONSE_LEN: usize = 8;

/// Requests a connection makes room for from the start.
pub const TAG_STORE_CAPACITY: usize = 100;

/// What the loop is doing: waiting for requests and responses, or writing
/// out what requests it took.
#[derive(Clone, Copy, Debug, PartialEq, Eq, Structural)]
pub enum TransportState {
    Pending,
    WritingToBuffer,
}

/// The tag that follows `t`, wrapping around after the largest.
pub open spec fn next_tag(t: u16) -> u16 {
    if t == u16::MAX {
        0
    } else {
        (t + 1) as u16
    }
}

/// How many tags after `from` the tag `t` comes, counting around the wrap.
pub open spec fn tag_distance(from: u16, t: u16) -> nat {
    ((t - from) % 65536) as nat
}

/// A request as it is first stored: nothing of its response seen yet.
pub open spec fn fresh_callback(tag: u16, req: Request) -> RequestCallback {
    RequestCallback { tag, sent: None, total: None, tx: req.tx }
}

/// The message that refuses a read too short to be a response.
pub open spec fn invalid_header_text() -> Seq<char> {
    "Invalid header received"@
}

/// The state of a connection apart from its socket and its request queue.
pub struct TransportCore {
    /// The tag of the next request written.
    pub request_id: u16,
    /// The tag of the next response read.
    pub response_id: u16,
    /// The requests that wait for their responses.
    pub tag_store: TagStore,
    pub state: TransportState,
    /// What was taken from requests and is not yet written to the socket.
    pub write_buffer: Vec<u8>,
    /// Where reads from the socket land.
    pub read_buffer: Vec<u8>,
}

fn next_tag_exec(t: u16) -> (n: u16)
    ensures
        n == next_tag(t),
{
    if t == u16::MAX {
        0
    } else {
        t + 1
    }
}

impl TransportCore {
    /// The store is well formed and holds only requests none of whose
    /// response has been seen.
    pub open spec fn wf(&self) -> bool {
        &&& self.tag_store.wf()
        &&& forall|t: u16| #[trigger]
            self.tag_store@.contains_key(t) ==> self.tag_store@[t].sent is None
                && self.tag_store@[t].total is None
    }

    /// Requests written whose responses were not read yet.
    pub open spec fn in_flight(&self) -> nat {
        tag_distance(self.response_id, self.request_id)
    }

    /// The waiting requests are exactly those tagged from `response_id` on,
    /// in the order they were written, up to `request_id`.
    pub open spec fn in_order(&self) -> bool {
        forall|t: u16| #[trigger]
            self.tag_store@.contains_key(t) <==> tag_distance(self.response_id, t) < self.in_flight()
    }

    /// A fresh connection: both counters at 1, nothing waiting, nothing
    /// buffered, a read buffer of `READ_BUFFER_LEN` zero bytes.
    pub fn new() -> (c: Self)
        ensures
            c.wf(),
            c.in_order(),
            c.request_id == 1,
            c.response_id == 1,
            c.tag_store@ == Map::<u16, RequestCallback>::empty(),
            c.state == TransportState::Pending,
            c.write_buffer@ == Seq::<u8>::empty(),
            c.read_buffer@ == Seq::new(READ_BUFFER_LEN as nat, |i: int| 0u8),
    {
        let read_buffer: Vec<u8> = vec![0u8; READ_BUFFER_LEN];
        assert(read_buffer@ =~= Seq::new(READ_BUFFER_LEN as nat, |i: int| 0u8));
        TransportCore {
            request_id: 1,
            response_id: 1,
            tag_store: TagStore::new(TAG_STORE_CAPACITY),
            state: TransportState::Pending,
            write_buffer: Vec::new(),
            read_buffer,
        }
    }

    /// Takes a request: it gets the next request tag, its bytes join the
    /// write buffer, and it waits in the store under its tag.
    pub fn write_request(&mut self, req: Request) -> (r: Result<(), Error>)
        requires
            old(self).wf(),
        ensures
            r is Ok,
            final(self).wf(),
            final(self).request_id == next_tag(old(self).request_id),
            final(self).response_id == old(self).response_id,
            final(self).state == old(self).state,
            final(self).read_buffer == old(self).read_buffer,
            final(self).write_buffer@ == old(self).write_buffer@ + req.data@,
            final(self).tag_store@ == old(self).tag_store@.insert(
                old(self).request_id,
                fresh_callback(old(self).request_id, req),
            ),
            final(self).tag_store.offers() == old(self).tag_store.offers(),
            old(self).in_order() && old(self).in_flight() < u16::MAX ==> final(self).in_order()
                && final(self).in_flight() == old(self).in_flight() + 1,
    {
        let request_id = self.request_id;
        self.request_id = next_tag_exec(request_id);
        self.write_buffer.extend_from_slice(req.data.as_slice());
        assert(self.write_buffer@ =~= old(self).write_buffer@ + req.data@);
        self.tag_store.add(RequestCallback { tx: req.tx, tag: request_id, total: None, sent: None });
        Ok(())
    }

    /// The chunk a read of `bytes_read` bytes makes: the whole response,
    /// tagged with the next response tag.
    pub fn response_chunk(&self, bytes_read: usize) -> (chunk: ResponseChunk)
        requires
            bytes_read <= self.read_buffer@.len(),
        ensures
            chunk.tag == self.response_id,
            chunk.part == 1,
            chunk.total == 1,
            chunk.data@ == self.read_buffer@.take(bytes_read as int),
    {
        let received = slice_subrange(self.read_buffer.as_slice(), 0, bytes_read);
        let mut data: Vec<u8> = Vec::new();
        data.extend_from_slice(received);
        assert(data@ =~= self.read_buffer@.take(bytes_read as int));
        ResponseChunk { total: 1, part: 1, tag: self.response_id, data }
    }

    /// Takes a read of `bytes_read` bytes from the read buffer: too short a
    /// read is refused and changes nothing; otherwise it is the response for
    /// the next response tag, which is handed to the request with that tag,
    /// and that request stops waiting.
    pub fn read_response(&mut self, bytes_read: usize) -> (r: Result<(), Error>)
        requires
            old(self).wf(),
            bytes_read <= old(self).read_buffer@.len(),
        ensures
            final(self).wf(),
            bytes_read < MIN_RESPONSE_LEN ==> (r matches Err(Error::UnknownError(msg)) && msg@
                == invalid_header_text() && *final(self) == *old(self)),
            bytes_read >= MIN_RESPONSE_LEN ==> {
                &&& final(self).response_id == next_tag(old(self).response_id)
                &&& final(self).request_id == old(self).request_id
                &&& final(self).state == old(self).state
                &&& final(self).write_buffer == old(self).write_buffer
                &&& final(self).read_buffer == old(self).read_buffer
                &&& old(self).tag_store@.contains_key(old(self).response_id) ==> r is Ok
                    && final(self).tag_store@ == old(self).tag_store@.remove(old(self).response_id)
                    && final(self).tag_store.offers() == old(self).tag_store.offers().push(
                    (
                        old(self).tag_store@[old(self).response_id].tx,
                        old(self).response_id,
                        1u16,
                        1u16,
                        old(self).read_buffer@.take(bytes_read as int),
                    ),
                )
                &&& !old(self).tag_store@.contains_key(old(self).response_id) ==> (r matches Err(
                    Error::ClientError(msg),
                ) && msg@ == missing_tag_text(old(self).response_id)) && final(self).tag_store@
                    == old(self).tag_store@ && final(self).tag_store.offers() == old(
                    self,
                ).tag_store.offers()
            },
            bytes_read >= MIN_RESPONSE_LEN && old(self).in_order() && old(self).in_flight() > 0
                ==> r is Ok && final(self).in_order() && final(self).in_flight() + 1 == old(
                self,
            ).in_flight(),
    {
        if bytes_read < MIN_RESPONSE_LEN {
            return Err(Error::UnknownError(String::from_str("Invalid header received")));
        }
        let chunk = self.response_chunk(bytes_read);
        self.response_id = next_tag_exec(self.response_id);
        proof {
            if old(self).in_order() && old(self).in_flight() > 0 {
                assert(tag_distance(old(self).response_id, old(self).response_id) == 0);
                assert(old(self).tag_store@.contains_key(old(self).response_id));
            }
        }
        self.tag_store.add_response(chunk)
    }

    /// Takes what the request queue gave: a request is written into the
    /// buffer, which is then to be written out; a closed queue ends the loop
    /// once no request waits. The result says whether the loop ends.
    pub fn on_request(&mut self, polled: Option<Request>) -> (finished: bool)
        requires
            old(self).wf(),
        ensures
            final(self).wf(),
            match polled {
                Some(req) => {
                    &&& !finished
                    &&& final(self).state == TransportState::WritingToBuffer
                    &&& final(self).request_id == next_tag(old(self).request_id)
                    &&& final(self).response_id == old(self).response_id
                    &&& final(self).read_buffer == old(self).read_buffer
                    &&& final(self).write_buffer@ == old(self).write_buffer@ + req.data@
                    &&& final(self).tag_store@ == old(self).tag_store@.insert(
                        old(self).request_id,
                        fresh_callback(old(self).request_id, req),
                    )
                    &&& final(self).tag_store.offers() == old(self).tag_store.offers()
                },
                None => {
                    &&& *final(self) == *old(self)
                    &&& finished == (old(self).tag_store@ == Map::<u16, RequestCallback>::empty())
                },
            },
    {
        match polled {
            Some(req) => {
                let _ = self.write_request(req);
                self.state = TransportState::WritingToBuffer;
                false
            },
            None => self.tag_store.is_empty(),
        }
    }

    /// The buffered requests went out: the buffer empties and the loop
    /// waits again.
    pub fn on_written(&mut self)
        requires
            old(self).wf(),
        ensures
            final(self).wf(),
            final(self).state == TransportState::Pending,
            final(self).write_buffer@ == Seq::<u8>::empty(),
            final(self).request_id == old(self).request_id,
            final(self).response_id == old(self).response_id,
            final(self).tag_store == old(self).tag_store,
            final(self).read_buffer == old(self).read_buffer,
    {
        self.write_buffer.clear();
        self.state = TransportState::Pending;
    }
}

} // verus!
