//! The error taxonomy of the client core.

use vstd::prelude::*;

verus! {

/// A typed call was constructed with parameters that cannot be encoded into
/// a request descriptor. Surfaced to the caller before any network work.
#[derive(Clone, Debug, PartialEq, Eq, Structural)]
pub enum RequestBuildError {
    /// A required textual parameter was empty.
    EmptyParameter,
}

/// The network layer failed to carry a request descriptor to the remote host
/// and bring a response body back.
#[derive(Clone, Debug, PartialEq)]
pub enum TransportError {
    /// The connection could not be established.
    Connection,
    /// The secure-channel handshake failed.
    Handshake,
    /// The per-request timeout elapsed before a response arrived.
    Timeout,
    /// The response body could not be read.
    UnreadableBody,
    /// The remote host answered with a status outside the success range;
    /// status and body are preserved for diagnostics.
    Status {
        /// The HTTP status code that was returned.
        code: u16,
        /// The raw response body, kept for diagnostics.
        body: Vec<u8>,
    },
}

/// A payload did not have the expected shape.
#[derive(Clone, Debug, PartialEq, Eq, Structural)]
pub enum DecodeError {
    /// An update envelope carried none of the known kind fields.
    UnknownKind,
    /// A body or result payload could not be read as the declared type.
    BadPayload,
}

/// Everything that can go wrong while executing a typed call end to end.
#[derive(Clone, Debug, PartialEq)]
pub enum ApiClientError {
    /// The call could not be turned into a request descriptor.
    Build(RequestBuildError),
    /// The network layer failed; recoverable by retry loops.
    Transport(TransportError),
    /// The response envelope or its payload was malformed.
    Decode(DecodeError),
    /// The remote platform reported a well-formed failure.
    Api {
        /// Numeric error code reported by the platform, when present.
        code: Option<i64>,
        /// Human-readable description reported by the platform, when present.
        description: Option<String>,
    },
}

} // verus!
