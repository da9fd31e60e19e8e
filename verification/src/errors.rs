//! Error taxonomy of the server.  Fatal kinds (bind failure, a zero-byte
//! read) end the serving loop; every other kind is reported and the loop
//! keeps listening.

use vstd::prelude::*;

verus! {

/// Everything that can go wrong while serving, from socket setup to
/// dispatch.  String payloads carry the rendered text of the underlying
/// failure or the offending input.
#[derive(Debug)]
pub enum HttpErrors {
    TcpListenerBindFailure(String, String),
    StreamAcceptFailure(String),
    StreamReadFailure(String),
    StreamWriteFailure(String),
    StreamFlushFailure(String),
    StreamPeerAddressUnknown(String),
    Utf8ConversionFailure,
    GeneralReadFailure,
    UnsupportedExtension(String),
    UnsupportedRequestType(String),
    UnsupportedProtocol,
    InvalidRequest(String),
    UnauthorizedPath(String),
    ResourceNotFound(String),
    FileReadFailure(String),
    ConfigReadFailure(String),
    ConfigParseFailure(String),
}

} // verus!
