//! The request/response bookkeeping of a connection: requests waiting for
//! their responses, and the state of the loop that drives the connection.
pub mod request;
pub mod tagstore;
pub mod tcp;
