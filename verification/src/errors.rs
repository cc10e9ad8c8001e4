use vstd::prelude::*;

verus! {

/// The failure taxonomy of the tunnel client.
///
/// The first five variants are fatal configuration errors, discovered while
/// loading trust material or building the TLS client configuration; the last
/// one covers per-iteration failures of the tunnel itself, which are
/// recoverable by waiting and reconnecting.
#[derive(Clone, Copy, Debug, PartialEq, Eq, Structural)]
pub enum TunnelError {
    /// A file could not be opened or read.
    Io,
    /// A PEM file was malformed, or held no block of the required kind.
    Parse,
    /// No certificate in the bundle was usable as a trust anchor.
    TrustStore,
    /// The key file was exhausted without finding a recognized key block.
    NoKeyFound,
    /// The client private key does not pair with the client certificate chain.
    IdentityMismatch,
    /// Transport, TLS handshake or relay failure during one tunnel iteration.
    Handshake,
}

} // verus!
