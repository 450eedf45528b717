use vstd::prelude::*;

verus! {

/// What can go wrong while starting or observing a tunnel.
#[derive(Debug, Clone, PartialEq, Eq)]
pub enum Error {
    /// `https()` or `http()` was never called on the builder.
    MissingProtocol,
    /// `port(..)` was never called on the builder.
    MissingPort,
    /// The operating system refused to start the executable.
    SpawnFailed(String),
    /// The local API never listed a tunnel for the requested port and scheme.
    TunnelNotFound,
    /// The local API answered with JSON of an unexpected shape.
    MalformedAPIResponse,
    /// The tunnel process has ended; the text describes how.
    TunnelProcessExited(String),
}

} // verus!
