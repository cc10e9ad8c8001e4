use vstd::prelude::*;

verus! {

/// The resolved configuration the tunnel runs with: constructed once at
/// startup, read-only thereafter. The core consumes it as given and has no
/// opinion on how it was populated.
#[derive(Debug, PartialEq)]
pub struct ClientConf {
    /// The local bind/identity address; informational only.
    pub addr: String,
    /// Path of the CA certificate bundle, the trust anchors.
    pub ca_cert: String,
    /// Path of the client certificate chain, leaf first.
    pub client_cert: String,
    /// Path of the client private key.
    pub client_key: String,
    /// The remote `host:port` to connect to.
    pub connect: String,
}

} // verus!
