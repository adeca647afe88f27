//! What travels between the clients of a connection and the connection itself.
use tokio::sync::mpsc::error::SendError;
use tokio::sync::mpsc::UnboundedSender;
use vstd::prelude::*;

verus! {

/// The sending half of a tokio unbounded channel.
#[verifier::external_type_specification]
#[verifier::external_body]
#[verifier::reject_recursive_types(T)]
pub struct ExUnboundedSender<T>(UnboundedSender<T>);

/// The error of a send on a tokio channel whose receiving half is closed;
/// it holds the value that was not sent.
#[verifier::external_type_specification]
#[verifier::external_body]
#[verifier::reject_recursive_types(T)]
pub struct ExSendError<T>(SendError<T>);

/// A request packet, with the channel its response chunks go to.
pub struct Request {
    pub data: Vec<u8>,
    pub tx: UnboundedSender<ResponseChunk>,
}

/// A request that waits for its response: its tag, how many chunks were
/// handed on so far, how many the response has, and where they go.
pub struct RequestCallback {
    pub tag: u16,
    pub sent: Option<u16>,
    pub total: Option<u16>,
    pub tx: UnboundedSender<ResponseChunk>,
}

/// One piece of a response: part `part` of `total`, for the request tagged `tag`.
pub struct ResponseChunk {
    pub tag: u16,
    pub part: u16,
    pub total: u16,
    pub data: Vec<u8>,
}

/// A chunk as it was handed to the sender of a waiting request: the sender,
/// then the chunk's tag, part, total and data.
pub type Offer = (UnboundedSender<ResponseChunk>, u16, u16, u16, Seq<u8>);

/// The offer of `chunk` to the sender `tx`.
pub open spec fn offer_of(tx: UnboundedSender<ResponseChunk>, chunk: ResponseChunk) -> Offer {
    (tx, chunk.tag, chunk.part, chunk.total, chunk.data@)
}

/// `UnboundedSender::send`: hands `chunk` to the receiving half of the
/// channel, or returns it in an error when that half is closed. Which of the
/// two happens depends on the receiver, not on the arguments, so nothing is
/// stated of the result. It is private to this module: every send goes
/// through `deliver`, which records it.
#[verifier::external_body]
fn send_chunk(tx: &UnboundedSender<ResponseChunk>, chunk: ResponseChunk) -> Result<
    (),
    SendError<ResponseChunk>,
> {
    tx.send(chunk)
}

/// Hands `chunk` to `tx`, once, and records that offer at the end of `log`.
pub(crate) fn deliver(
    tx: &UnboundedSender<ResponseChunk>,
    chunk: ResponseChunk,
    log: &mut Ghost<Seq<Offer>>,
) -> (r: Result<(), SendError<ResponseChunk>>)
    ensures
        final(log)@ == old(log)@.push(offer_of(*tx, chunk)),
{
    proof {
        log@ = log@.push(offer_of(*tx, chunk));
    }
    send_chunk(tx, chunk)
}

} // verus!
