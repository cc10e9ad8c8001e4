//! A mutually-authenticated TLS tunnel client library.
//!
//! The library loads PEM-encoded trust material (certificate chains, trust
//! anchors, private keys), builds a reusable TLS client configuration, and
//! drives the reconnect/relay state machine of a persistent tunnel.

mod config;
mod driver;
mod errors;
mod greeting;
mod pem;
mod tls;
mod trust;

pub use config::ClientConf;
pub use driver::{
    cooldown_millis, event_fits, initial, is_failure_event, lemma_failure_cools_down,
    lemma_no_terminal_state, step, step_spec, TunnelAction, TunnelEvent, TunnelState,
};
pub use errors::TunnelError;
pub use greeting::{
    build_greeting, greeting_of, greeting_prefix, greeting_suffix, localhost_bytes, localhost_name,
};
pub use pem::{
    cert_blocks, chain_load_outcome, entry_der, first_key, is_key_entry,
    lemma_all_certificates_kept, lemma_chain_load_deterministic, lemma_first_key_prefers_earlier,
    lemma_scan_agrees_with_first_key, load_certificate_chain, load_private_key, pem_items,
    pem_next, scan_for_key, CertificateChain, PemEntry, PrivateKeyDer,
};
pub use tls::{
    build_configuration, config_identity, config_root_ders, key_usable, ClientIdentity,
    TlsSessionConfiguration,
};
pub use trust::{
    accepted_anchors, anchor_ok, anchors_load_outcome, load_trust_anchors, store_ders,
    TrustAnchorSet,
};
