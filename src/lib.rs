//! A small client library for a remote vector-database service that speaks
//! HTTP and JSON.
//!
//! The library holds the client's addressing and identity, builds a complete
//! request (method, address, headers, body) for each remote operation, and
//! turns what the transport brought back into a typed result or a typed
//! error. Sending the request is left to the caller's HTTP transport.
pub mod client;
pub mod collection;
pub mod error;
pub mod text;
