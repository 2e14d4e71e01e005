//! Incremental serializer for the textual preamble of an HTTP/1.1 message.
//!
//! The data model (`types`) holds the message shapes — method, status code,
//! header, request, response — and the `writer` module renders a message's
//! start line, header lines and terminating blank line one step at a time.

pub mod types;
pub mod writer;

pub use types::{Header, Method, Request, Response, StatusCode};
pub use writer::{BoundedSink, HttpMessage, Sealed, Sink, State, WriteError, Writer};
