//! How a call fails.
use vstd::prelude::*;

verus! {

/// What made a response unusable although the server answered with success.
#[derive(Clone, Copy, Debug, PartialEq, Eq)]
pub enum ResponseFault {
    /// A blocking read came back without an index.
    MissingIndex,
    /// The index header is not a decimal `u64`.
    BadIndex,
    /// A blocking read came back with an index below the one it waited on.
    IndexWentBack,
    /// The known-leader header is neither `true` nor `false`.
    BadKnownLeader,
    /// The last-contact header is not a decimal `u64`.
    BadLastContact,
}

/// A failure below HTTP, or a response that cannot be read.
#[derive(Clone, Debug, PartialEq, Eq)]
pub enum TransportFailure {
    /// The call ran out of time; on a blocking read this means nothing changed.
    Timeout,
    /// The connection could not be made or was lost.
    Connect(String),
    /// The server answered with something this client cannot read.
    Malformed(ResponseFault),
}

/// Every way a call fails.
#[derive(Clone, Debug, PartialEq, Eq)]
pub enum Error {
    /// The options ask for two consistency modes at once; nothing was sent.
    InvalidOptions,
    /// The call failed below HTTP.
    Transport(TransportFailure),
    /// The server refused the request.
    Api { status: u16, body: String },
    /// The body does not have the expected shape.
    Decode(String),
}

} // verus!
