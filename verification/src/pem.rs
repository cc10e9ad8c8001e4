use vstd::prelude::*;

use crate::errors::TunnelError;

verus! {

/// One recognised block of a PEM file, holding the decoded DER bytes.
#[derive(Debug, PartialEq, Eq)]
pub enum PemEntry {
    /// A `CERTIFICATE` block.
    Certificate(Vec<u8>),
    /// A legacy `RSA PRIVATE KEY` block.
    RsaKey(Vec<u8>),
    /// A generic PKCS#8 `PRIVATE KEY` block.
    Pkcs8Key(Vec<u8>),
}

/// An ordered sequence of DER-encoded certificates, leaf first,
/// in the order the blocks stood in the PEM file.
#[derive(Debug)]
pub struct CertificateChain {
    pub ders: Vec<Vec<u8>>,
}

impl View for CertificateChain {
    type V = Seq<Seq<u8>>;

    open spec fn view(&self) -> Seq<Seq<u8>> {
        self.ders.deep_view()
    }
}

/// A single DER-encoded private key, extracted from a PEM file.
#[derive(Debug)]
pub struct PrivateKeyDer {
    pub der: Vec<u8>,
}

impl View for PrivateKeyDer {
    type V = Seq<u8>;

    open spec fn view(&self) -> Seq<u8> {
        self.der@
    }
}

/// Whether the entry is a recognized private-key block.
pub open spec fn is_key_entry(e: PemEntry) -> bool {
    e is RsaKey || e is Pkcs8Key
}

/// The DER payload of an entry.
pub open spec fn entry_der(e: PemEntry) -> Seq<u8> {
    match e {
        PemEntry::Certificate(d) => d@,
        PemEntry::RsaKey(d) => d@,
        PemEntry::Pkcs8Key(d) => d@,
    }
}

/// The DER payloads of the certificate blocks among `items`, in order.
pub open spec fn cert_blocks(items: Seq<PemEntry>) -> Seq<Seq<u8>>
    decreases items.len(),
{
    if items.len() == 0 {
        Seq::empty()
    } else {
        cert_blocks(items.drop_last()) + (if items.last() is Certificate {
            seq![entry_der(items.last())]
        } else {
            Seq::empty()
        })
    }
}

/// The DER payload of the first recognized key block among `items`,
/// if any block is a key.
pub open spec fn first_key(items: Seq<PemEntry>) -> Option<Seq<u8>>
    decreases items.len(),
{
    if items.len() == 0 {
        None
    } else if is_key_entry(items.first()) {
        Some(entry_der(items.first()))
    } else {
        first_key(items.drop_first())
    }
}

/// What reading one PEM section off the bytes `data` yields: `None` where
/// the next section is malformed (an unterminated section or undecodable
/// base64 text); otherwise the recognized block read — `None` for end of
/// input, with sections of unrecognized types skipped — and the bytes left
/// unconsumed. A pure function of the bytes; `pem_read_one` relates it to
/// `rustls_pemfile::read_one`.
pub uninterp spec fn pem_next(data: Seq<u8>) -> Option<(Option<PemEntry>, Seq<u8>)>;

/// The sequence of PEM blocks that the bytes `data` decode to, in file
/// order, reading one section after the other until the end of input, or
/// `None` where some section is malformed. The guard on the remaining
/// bytes mirrors that a successful read consumes input, as `pem_read_one`
/// states.
pub open spec fn pem_items(data: Seq<u8>) -> Option<Seq<PemEntry>>
    decreases data.len(),
{
    match pem_next(data) {
        None => None,
        Some((None, _)) => Some(Seq::empty()),
        Some((Some(e), rest)) => if rest.len() < data.len() {
            match pem_items(rest) {
                None => None,
                Some(tail) => Some(seq![e] + tail),
            }
        } else {
            None
        },
    }
}

/// The outcome of reading sections off `data` until the first recognized
/// key block: `None` where a section before any key is malformed,
/// `Some(None)` where the input ends without a key, and the first key's
/// payload otherwise — whatever follows it, well-formed or not, is never
/// read.
pub open spec fn scan_for_key(data: Seq<u8>) -> Option<Option<Seq<u8>>>
    decreases data.len(),
{
    match pem_next(data) {
        None => None,
        Some((None, _)) => Some(None),
        Some((Some(e), rest)) => if is_key_entry(e) {
            Some(Some(entry_der(e)))
        } else if rest.len() < data.len() {
            scan_for_key(rest)
        } else {
            Some(None)
        },
    }
}

/// Relies on `rustls_pemfile::read_one`: it reads exactly one section —
/// skipping sections of unrecognized types — returns `None` at end of
/// input, fails exactly on a malformed section (a byte-slice reader raises
/// no other I/O error), and advances the reader, so a read that yields a
/// block consumes at least one byte and never more than remain.
#[verifier::external_body]
fn pem_read_one(data: &[u8]) -> (r: Result<(Option<PemEntry>, &[u8]), TunnelError>)
    ensures
        match r {
            Ok((item, rest)) => pem_next(data@) == Some((item, rest@)),
            Err(e) => pem_next(data@) is None && e == TunnelError::Parse,
        },
        r matches Ok((item, rest)) ==> rest@.len() <= data@.len(),
        r matches Ok((item, rest)) ==> (item is Some ==> rest@.len() < data@.len()),
{
    let mut rd: &[u8] = data;
    match rustls_pemfile::read_one(&mut rd) {
        Ok(Some(rustls_pemfile::Item::X509Certificate(d))) => Ok((Some(PemEntry::Certificate(d)), rd)),
        Ok(Some(rustls_pemfile::Item::RSAKey(d))) => Ok((Some(PemEntry::RsaKey(d)), rd)),
        Ok(Some(rustls_pemfile::Item::PKCS8Key(d))) => Ok((Some(PemEntry::Pkcs8Key(d)), rd)),
        Ok(None) => Ok((None, rd)),
        Err(_) => Err(TunnelError::Parse),
    }
}

/// Relies on `rustls_pemfile::read_all`: it loops `rustls_pemfile::read_one`
/// to the end of input, collecting every recognized section of the input
/// in file order — `CERTIFICATE`, `RSA PRIVATE KEY` and `PRIVATE KEY`,
/// sections of any other type skipped — and fails exactly on malformed PEM
/// structure (a byte-slice reader raises no other I/O error).
#[verifier::external_body]
pub(crate) fn pem_read_all(data: &[u8]) -> (r: Result<Vec<PemEntry>, TunnelError>)
    ensures
        r is Ok <==> pem_items(data@) is Some,
        r matches Ok(v) ==> pem_items(data@) == Some(v@),
        r matches Err(e) ==> e == TunnelError::Parse,
{
    let mut rd: &[u8] = data;
    match rustls_pemfile::read_all(&mut rd) {
        Ok(items) => Ok(items
            .into_iter()
            .map(|i| match i {
                rustls_pemfile::Item::X509Certificate(d) => PemEntry::Certificate(d),
                rustls_pemfile::Item::RSAKey(d) => PemEntry::RsaKey(d),
                rustls_pemfile::Item::PKCS8Key(d) => PemEntry::Pkcs8Key(d),
            })
            .collect()),
        Err(_) => Err(TunnelError::Parse),
    }
}

/// Copy a byte vector; the copy holds the same bytes.
pub(crate) fn clone_bytes(v: &Vec<u8>) -> (r: Vec<u8>)
    ensures
        r@ == v@,
{
    let r = v.clone();
    proof {
        assert(r@ =~= v@);
    }
    r
}

/// What `load_certificate_chain` returns on input bytes `data`: every
/// `CERTIFICATE` block of a well-formed PEM input, in file order, and a
/// parse error where the input is malformed or holds no certificate block.
pub open spec fn chain_load_outcome(data: Seq<u8>, r: Result<CertificateChain, TunnelError>) -> bool {
    match pem_items(data) {
        None => r == Err::<CertificateChain, TunnelError>(TunnelError::Parse),
        Some(items) => {
            if cert_blocks(items).len() > 0 {
                r matches Ok(chain) && chain@ == cert_blocks(items)
            } else {
                r == Err::<CertificateChain, TunnelError>(TunnelError::Parse)
            }
        },
    }
}

/// Parse all PEM `CERTIFICATE` blocks of `data` into DER bytes, in file
/// order. Fails with a parse error where the PEM structure is malformed or
/// no certificate block is present.
pub fn load_certificate_chain(data: &[u8]) -> (r: Result<CertificateChain, TunnelError>)
    ensures
        chain_load_outcome(data@, r),
{
    let entries = match pem_read_all(data) {
        Ok(v) => v,
        Err(e) => {
            return Err(e);
        },
    };
    let mut ders: Vec<Vec<u8>> = Vec::new();
    let n = entries.len();
    for i in 0..n
        invariant
            n == entries.len(),
            ders.deep_view() == cert_blocks(entries@.take(i as int)),
    {
        let ghost prev = ders.deep_view();
        match &entries[i] {
            PemEntry::Certificate(d) => {
                let copy = clone_bytes(d);
                ders.push(copy);
                proof {
                    assert(entries@.take(i + 1).drop_last() =~= entries@.take(i as int));
                    assert(entries@.take(i + 1).last() == entries@[i as int]);
                    assert(ders.deep_view() =~~= prev.push(entries@[i as int]->Certificate_0@));
                    assert(ders.deep_view() =~~= cert_blocks(entries@.take(i + 1)));
                }
            },
            _ => {
                proof {
                    assert(entries@.take(i + 1).drop_last() =~= entries@.take(i as int));
                    assert(ders.deep_view() =~~= cert_blocks(entries@.take(i + 1)));
                }
            },
        }
    }
    proof {
        assert(entries@.take(n as int) =~= entries@);
    }
    if ders.len() == 0 {
        return Err(TunnelError::Parse);
    }
    proof {
        assert(cert_blocks(entries@).len() == ders.deep_view().len());
    }
    Ok(CertificateChain { ders })
}

/// Read PEM sections of `data` one after the other, as the key file is
/// laid out, and return the first recognized private-key block, whether a
/// legacy RSA block or a PKCS#8 block, ignoring blocks of any other type;
/// nothing past that key is read, well-formed or not. Fails with a parse
/// error where a section before any key is malformed, and with a
/// no-key-found error where the input ends without a recognized key.
pub fn load_private_key(data: &[u8]) -> (r: Result<PrivateKeyDer, TunnelError>)
    ensures
        match scan_for_key(data@) {
            None => r == Err::<PrivateKeyDer, TunnelError>(TunnelError::Parse),
            Some(None) => r == Err::<PrivateKeyDer, TunnelError>(TunnelError::NoKeyFound),
            Some(Some(k)) => r matches Ok(pk) && pk@ == k,
        },
{
    let mut rest: &[u8] = data;
    loop
        invariant
            scan_for_key(data@) == scan_for_key(rest@),
        decreases rest@.len(),
    {
        match pem_read_one(rest) {
            Err(e) => {
                return Err(e);
            },
            Ok((item, advanced)) => match item {
                None => {
                    return Err(TunnelError::NoKeyFound);
                },
                Some(PemEntry::RsaKey(k)) => {
                    return Ok(PrivateKeyDer { der: k });
                },
                Some(PemEntry::Pkcs8Key(k)) => {
                    return Ok(PrivateKeyDer { der: k });
                },
                Some(PemEntry::Certificate(_)) => {
                    rest = advanced;
                },
            },
        }
    }
}

/// The sequential scan agrees with the whole-file decode: on an input
/// whose every section is well-formed, the first key the scan stops at is
/// exactly the first key block of the decoded sequence.
pub proof fn lemma_scan_agrees_with_first_key(data: Seq<u8>)
    requires
        pem_items(data) is Some,
    ensures
        scan_for_key(data) == Some(first_key(pem_items(data).unwrap())),
    decreases data.len(),
{
    match pem_next(data) {
        None => {},
        Some((None, _)) => {},
        Some((Some(e), rest)) => {
            if rest.len() < data.len() {
                let tail = pem_items(rest).unwrap();
                let items = seq![e] + tail;
                assert(items.first() == e);
                if is_key_entry(e) {
                } else {
                    lemma_scan_agrees_with_first_key(rest);
                    assert(items.drop_first() =~= tail);
                }
            }
        },
    }
}

/// First-match-wins: where the block at index `i` is the first recognized
/// key block, `first_key` yields its payload, whatever key blocks follow.
pub proof fn lemma_first_key_prefers_earlier(items: Seq<PemEntry>, i: int)
    requires
        0 <= i < items.len(),
        is_key_entry(items[i]),
        forall|k: int| 0 <= k < i ==> !is_key_entry(#[trigger] items[k]),
    ensures
        first_key(items) == Some(entry_der(items[i])),
    decreases i,
{
    if i == 0 {
        assert(items.first() == items[0]);
    } else {
        assert(!is_key_entry(items.first()));
        assert(forall|k: int|
            0 <= k < i - 1 ==> items.drop_first()[k] == #[trigger] items[k + 1]);
        lemma_first_key_prefers_earlier(items.drop_first(), i - 1);
        assert(items.drop_first()[i - 1] == items[i]);
    }
}

/// A file of certificate blocks loses nothing: where every block is a
/// certificate, the chain holds exactly one entry per block, each the
/// block's payload, in file order.
pub proof fn lemma_all_certificates_kept(items: Seq<PemEntry>)
    requires
        forall|i: int| 0 <= i < items.len() ==> #[trigger] items[i] is Certificate,
    ensures
        cert_blocks(items).len() == items.len(),
        forall|i: int| 0 <= i < items.len() ==> #[trigger] cert_blocks(items)[i] == entry_der(
            items[i],
        ),
    decreases items.len(),
{
    if items.len() > 0 {
        lemma_all_certificates_kept(items.drop_last());
        assert(items.last() == items[items.len() - 1]);
        assert(forall|i: int|
            0 <= i < items.len() - 1 ==> #[trigger] items.drop_last()[i] == items[i]);
    }
}

/// Loading a certificate chain is deterministic: two results that both
/// meet the loading contract on the same bytes are structurally identical
/// chains, or the same error.
pub proof fn lemma_chain_load_deterministic(
    data: Seq<u8>,
    r1: Result<CertificateChain, TunnelError>,
    r2: Result<CertificateChain, TunnelError>,
)
    requires
        chain_load_outcome(data, r1),
        chain_load_outcome(data, r2),
    ensures
        r1 is Ok <==> r2 is Ok,
        r1 matches Ok(c1) ==> (r2 matches Ok(c2) && c1@ == c2@),
        r1 matches Err(e1) ==> (r2 matches Err(e2) && e1 == e2),
{
}

} // verus!
