//! A minimal HTTP/1.1 file server core.
//!
//! The crate covers the protocol engine of a tiny single-threaded file
//! server: request-line parsing, method dispatch, a path-traversal guard,
//! closed status-code and content-type registries, and bit-exact assembly
//! of the response wire format.  Socket handling and configuration loading
//! live in the surrounding application; the functions here take plain text
//! and bytes and return fully built responses.

pub mod config;
pub mod errors;
pub mod headers;
pub mod media;
pub mod requests;
pub mod server;
pub mod strutil;
