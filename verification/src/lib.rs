//! Client-side logic of the memcached binary protocol: packet headers,
//! response parsing, request framing and the bookkeeping that pairs
//! responses with the requests that are waiting for them.
pub mod error;
pub mod client;
pub mod codec;
pub mod transport;
