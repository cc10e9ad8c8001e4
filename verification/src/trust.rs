use vstd::prelude::*;

use crate::errors::TunnelError;
use crate::pem::{cert_blocks, pem_items, pem_read_all, PemEntry};

verus! {

#[verifier::external_type_specification]
#[verifier::external_body]
pub struct ExRootCertStore(rustls::RootCertStore);

/// The DER bytes of the certificates from which the store's trust anchors
/// were built, in insertion order. `store_new` and `store_add` relate it to
/// `rustls::RootCertStore`.
pub uninterp spec fn store_ders(s: rustls::RootCertStore) -> Seq<Seq<u8>>;

/// Whether webpki accepts the DER bytes as a trust anchor: a pure function
/// of the bytes, naming the success of
/// `webpki::trust_anchor_util::cert_der_as_trust_anchor`.
pub uninterp spec fn anchor_ok(der: Seq<u8>) -> bool;

/// Relies on `rustls::RootCertStore::empty`: the new store holds no anchor.
#[verifier::external_body]
fn store_new() -> (s: rustls::RootCertStore)
    ensures
        store_ders(s) == Seq::<Seq<u8>>::empty(),
{
    rustls::RootCertStore::empty()
}

/// Relies on `rustls::RootCertStore::add`: it parses the DER bytes with
/// `webpki::trust_anchor_util::cert_der_as_trust_anchor` — a pure function
/// of the bytes — and on success appends exactly the resulting anchor,
/// leaving the store unchanged on failure.
#[verifier::external_body]
fn store_add(s: &mut rustls::RootCertStore, der: &Vec<u8>) -> (r: Result<(), TunnelError>)
    ensures
        r is Ok <==> anchor_ok(der@),
        r is Ok ==> store_ders(*final(s)) == store_ders(*old(s)).push(der@),
        r is Err ==> store_ders(*final(s)) == store_ders(*old(s)),
        r matches Err(e) ==> e == TunnelError::TrustStore,
{
    match s.add(&rustls::Certificate(der.clone())) {
        Ok(()) => Ok(()),
        Err(_) => Err(TunnelError::TrustStore),
    }
}

/// Relies on `rustls::RootCertStore::len`: the store holds one anchor per
/// successful `add`, so its length is the number of certificates it was
/// built from.
#[verifier::external_body]
fn store_len(s: &rustls::RootCertStore) -> (r: usize)
    ensures
        r == store_ders(*s).len(),
{
    s.len()
}

/// The certificates among `ders` that webpki accepts as trust anchors,
/// in order.
pub open spec fn accepted_anchors(ders: Seq<Seq<u8>>) -> Seq<Seq<u8>>
    decreases ders.len(),
{
    if ders.len() == 0 {
        Seq::empty()
    } else {
        accepted_anchors(ders.drop_last()) + (if anchor_ok(ders.last()) {
            seq![ders.last()]
        } else {
            Seq::empty()
        })
    }
}

/// The set of CA certificates used as the peer-verification root.
/// Its invariant: at least one trust anchor is present.
#[derive(Debug)]
pub struct TrustAnchorSet {
    store: rustls::RootCertStore,
}

impl View for TrustAnchorSet {
    type V = Seq<Seq<u8>>;

    /// The DER bytes the anchors were built from, in insertion order.
    closed spec fn view(&self) -> Seq<Seq<u8>> {
        store_ders(self.store)
    }
}

impl TrustAnchorSet {
    /// At least one trust anchor is present; `load_trust_anchors`
    /// establishes this and nothing ever removes an anchor.
    pub open spec fn wf(&self) -> bool {
        self@.len() > 0
    }

    /// How many trust anchors the set holds.
    pub fn anchor_count(&self) -> (r: usize)
        ensures
            r == self@.len(),
    {
        store_len(&self.store)
    }

    /// Hand the underlying root store over to the TLS configuration.
    pub(crate) fn into_store(self) -> (s: rustls::RootCertStore)
        ensures
            store_ders(s) == self@,
    {
        self.store
    }
}

/// What `load_trust_anchors` returns on input bytes `data`: the anchors
/// built from every certificate block that webpki accepts, a parse error
/// where the PEM structure is malformed, and a trust-store error where no
/// block yields an anchor — so an empty set is never returned.
pub open spec fn anchors_load_outcome(data: Seq<u8>, r: Result<TrustAnchorSet, TunnelError>) -> bool {
    match pem_items(data) {
        None => r == Err::<TrustAnchorSet, TunnelError>(TunnelError::Parse),
        Some(items) => {
            if accepted_anchors(cert_blocks(items)).len() > 0 {
                r matches Ok(t) && t@ == accepted_anchors(cert_blocks(items))
            } else {
                r == Err::<TrustAnchorSet, TunnelError>(TunnelError::TrustStore)
            }
        },
    }
}

/// Parse the PEM certificate blocks of `data` and insert each as an
/// independent trust anchor. A certificate that webpki rejects is skipped,
/// not fatal; but an outcome with no anchor at all — an empty file, a file
/// without certificates, or only rejected ones — is a trust-store error.
pub fn load_trust_anchors(data: &[u8]) -> (r: Result<TrustAnchorSet, TunnelError>)
    ensures
        anchors_load_outcome(data@, r),
        r matches Ok(t) ==> t.wf(),
{
    let entries = match pem_read_all(data) {
        Ok(v) => v,
        Err(e) => {
            return Err(e);
        },
    };
    let mut store = store_new();
    let mut added: usize = 0;
    let n = entries.len();
    for i in 0..n
        invariant
            n == entries.len(),
            store_ders(store) == accepted_anchors(cert_blocks(entries@.take(i as int))),
            added == store_ders(store).len(),
            added <= i,
    {
        let ghost prev = store_ders(store);
        proof {
            assert(entries@.take(i + 1).drop_last() =~= entries@.take(i as int));
            assert(entries@.take(i + 1).last() == entries@[i as int]);
        }
        match &entries[i] {
            PemEntry::Certificate(d) => {
                proof {
                    assert(cert_blocks(entries@.take(i + 1))
                        == cert_blocks(entries@.take(i as int)).push(d@));
                    assert(cert_blocks(entries@.take(i + 1)).drop_last()
                        =~= cert_blocks(entries@.take(i as int)));
                }
                match store_add(&mut store, d) {
                    Ok(()) => {
                        added = added + 1;
                    },
                    Err(_) => {},
                }
            },
            _ => {
                proof {
                    assert(cert_blocks(entries@.take(i + 1))
                        =~= cert_blocks(entries@.take(i as int)));
                }
            },
        }
        proof {
            assert(store_ders(store)
                =~= accepted_anchors(cert_blocks(entries@.take(i + 1))));
        }
    }
    proof {
        assert(entries@.take(n as int) =~= entries@);
    }
    if added == 0 {
        return Err(TunnelError::TrustStore);
    }
    Ok(TrustAnchorSet { store })
}

} // verus!
