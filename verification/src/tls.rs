use vstd::prelude::*;

use crate::errors::TunnelError;
use crate::pem::{CertificateChain, PrivateKeyDer};
use crate::trust::{store_ders, TrustAnchorSet};

verus! {

#[verifier::external_type_specification]
#[verifier::external_body]
pub struct ExClientConfig(rustls::ClientConfig);

/// Whether rustls can decode the DER bytes as a supported signing key: a
/// pure function of the bytes, naming the success of
/// `rustls::sign::any_supported_type`.
pub uninterp spec fn key_usable(der: Seq<u8>) -> bool;

/// The DER bytes of the certificates behind the configuration's root
/// store, the set peer certificates are verified against. The wrappers
/// below relate it to `rustls::ClientConfig`.
pub uninterp spec fn config_root_ders(c: rustls::ClientConfig) -> Seq<Seq<u8>>;

/// The client identity the configuration holds — the certificate chain's
/// DER bytes and the key's DER bytes — or `None` where no client
/// certificate is configured. The wrappers below relate it to
/// `rustls::ClientConfig`.
pub uninterp spec fn config_identity(c: rustls::ClientConfig) -> Option<(Seq<Seq<u8>>, Seq<u8>)>;

/// Relies on `rustls::ClientConfig::new`: the fresh configuration has the
/// default cipher suites, an empty root store, and no client identity (its
/// certificate resolver is the fail-always one).
#[verifier::external_body]
fn tls_config_new() -> (c: rustls::ClientConfig)
    ensures
        config_root_ders(c) == Seq::<Seq<u8>>::empty(),
        config_identity(c) == Option::<(Seq<Seq<u8>>, Seq<u8>)>::None,
{
    rustls::ClientConfig::new()
}

/// Relies on `rustls::ClientConfig::set_single_client_cert`: it succeeds
/// exactly when `rustls::sign::any_supported_type` decodes the key — a pure
/// function of the key bytes — and then installs exactly the given chain
/// and key as the client identity; the chain is not cross-checked against
/// the key at configuration time. On failure it returns before touching
/// the configuration, and it never touches the root store.
#[verifier::external_body]
fn tls_config_set_identity(
    c: &mut rustls::ClientConfig,
    chain: &CertificateChain,
    key: &PrivateKeyDer,
) -> (r: Result<(), TunnelError>)
    ensures
        r is Ok <==> key_usable(key@),
        r matches Err(e) ==> e == TunnelError::IdentityMismatch,
        r is Ok ==> config_identity(*final(c)) == Some((chain@, key@)),
        r is Err ==> config_identity(*final(c)) == config_identity(*old(c)),
        config_root_ders(*final(c)) == config_root_ders(*old(c)),
{
    let certs = chain.ders.iter().map(|d| rustls::Certificate(d.clone())).collect();
    match c.set_single_client_cert(certs, rustls::PrivateKey(key.der.clone())) {
        Ok(()) => Ok(()),
        Err(_) => Err(TunnelError::IdentityMismatch),
    }
}

/// Relies on the public `rustls::ClientConfig::root_store` field: the
/// assignment replaces the configuration's root store with the given one
/// and touches nothing else, so the installed store is the root set that
/// peer certificates are verified against.
#[verifier::external_body]
fn tls_config_install_roots(c: &mut rustls::ClientConfig, store: rustls::RootCertStore)
    ensures
        config_root_ders(*final(c)) == store_ders(store),
        config_identity(*final(c)) == config_identity(*old(c)),
{
    c.root_store = store;
}

/// The pairing of one certificate chain with one private key, used to
/// prove this client's identity during the handshake.
pub struct ClientIdentity {
    pub chain: CertificateChain,
    pub key: PrivateKeyDer,
}

/// The immutable TLS client configuration: built once from an identity and
/// a trust anchor set, then shared by every connection attempt.
pub struct TlsSessionConfiguration {
    config: rustls::ClientConfig,
}

impl TlsSessionConfiguration {
    /// The DER bytes of the trust anchors the configuration verifies peer
    /// certificates against.
    pub closed spec fn root_ders(self) -> Seq<Seq<u8>> {
        config_root_ders(self.config)
    }

    /// The client identity the configuration presents: the chain's and the
    /// key's DER bytes.
    pub closed spec fn identity(self) -> Option<(Seq<Seq<u8>>, Seq<u8>)> {
        config_identity(self.config)
    }

    /// Hand the rustls configuration over to the connector that performs
    /// the handshakes, with the same roots and identity.
    pub fn into_client_config(self) -> (c: rustls::ClientConfig)
        ensures
            config_root_ders(c) == self.root_ders(),
            config_identity(c) == self.identity(),
    {
        self.config
    }
}

/// Combine a client identity and a trust anchor set into a reusable TLS
/// client configuration. Succeeds exactly when rustls can decode the
/// private key; a key it cannot use is an identity-mismatch error. On
/// success the configuration holds exactly the given chain and key as its
/// client identity, and the trust anchors as its peer-verification root.
pub fn build_configuration(identity: ClientIdentity, anchors: TrustAnchorSet) -> (r: Result<
    TlsSessionConfiguration,
    TunnelError,
>)
    requires
        anchors.wf(),
    ensures
        r is Ok <==> key_usable(identity.key@),
        r matches Err(e) ==> e == TunnelError::IdentityMismatch,
        r matches Ok(t) ==> t.root_ders() == anchors@ && t.identity() == Some(
            (identity.chain@, identity.key@),
        ),
{
    let mut config = tls_config_new();
    match tls_config_set_identity(&mut config, &identity.chain, &identity.key) {
        Ok(()) => {},
        Err(e) => {
            return Err(e);
        },
    }
    tls_config_install_roots(&mut config, anchors.into_store());
    Ok(TlsSessionConfiguration { config })
}

} // verus!
