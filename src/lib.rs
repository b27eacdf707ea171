//! Typed client binding for the HTTP API of an AList file-storage server.
//!
//! The library decides everything that is not transport: which path, verb and
//! headers an operation uses, the exact JSON text of each request body, the
//! credential digest sent at login, and how a response envelope turns into a
//! payload or an error. Sending the request and decoding the response body are
//! left to the caller.
pub mod auth;
pub mod envelope;
pub mod fs;
pub mod json;
pub mod public;
pub mod request;
pub mod text;

pub use envelope::{NullResponse, Response};
