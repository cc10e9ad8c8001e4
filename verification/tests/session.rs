use std::sync::Arc;

use rustls_client::{
    build_configuration, build_greeting, initial, load_certificate_chain, load_private_key,
    load_trust_anchors, localhost_name, step, ClientIdentity, TunnelAction, TunnelEvent,
    TunnelState,
};
use tokio::io::{AsyncReadExt, AsyncWriteExt};

fn ca_cert(name: &str) -> rcgen::Certificate {
    let mut params = rcgen::CertificateParams::new(Vec::<String>::new());
    params.is_ca = rcgen::IsCa::Ca(rcgen::BasicConstraints::Unconstrained);
    let mut dn = rcgen::DistinguishedName::new();
    dn.push(rcgen::DnType::CommonName, name);
    params.distinguished_name = dn;
    rcgen::Certificate::from_params(params).unwrap()
}

fn leaf_cert(name: &str, usage: rcgen::ExtendedKeyUsagePurpose) -> rcgen::Certificate {
    let mut params = rcgen::CertificateParams::new(vec!["localhost".to_string()]);
    params.extended_key_usages = vec![usage];
    let mut dn = rcgen::DistinguishedName::new();
    dn.push(rcgen::DnType::CommonName, name);
    params.distinguished_name = dn;
    rcgen::Certificate::from_params(params).unwrap()
}

/// The PEM trust material of one test run: a two-certificate CA bundle, a
/// server and a client identity signed by the first CA, and a server
/// identity signed by a CA outside the bundle.
struct TestPki {
    ca1_pem: String,
    ca_bundle_pem: String,
    server_cert_pem: String,
    server_key_pem: String,
    client_cert_pem: String,
    client_key_pem: String,
    untrusted_cert_pem: String,
    untrusted_key_pem: String,
}

fn make_pki() -> TestPki {
    let ca1 = ca_cert("Tunnel Test CA One");
    let ca2 = ca_cert("Tunnel Test CA Two");
    let untrusted_ca = ca_cert("Untrusted CA");
    let server = leaf_cert("localhost server", rcgen::ExtendedKeyUsagePurpose::ServerAuth);
    let client = leaf_cert("tunnel client", rcgen::ExtendedKeyUsagePurpose::ClientAuth);
    let untrusted = leaf_cert("untrusted server", rcgen::ExtendedKeyUsagePurpose::ServerAuth);
    let ca1_pem = ca1.serialize_pem().unwrap();
    let ca2_pem = ca2.serialize_pem().unwrap();
    TestPki {
        ca_bundle_pem: format!("{}{}", ca1_pem, ca2_pem),
        server_cert_pem: server.serialize_pem_with_signer(&ca1).unwrap(),
        server_key_pem: server.serialize_private_key_pem(),
        client_cert_pem: client.serialize_pem_with_signer(&ca1).unwrap(),
        client_key_pem: client.serialize_private_key_pem(),
        untrusted_cert_pem: untrusted.serialize_pem_with_signer(&untrusted_ca).unwrap(),
        untrusted_key_pem: untrusted.serialize_private_key_pem(),
        ca1_pem,
    }
}

fn server_tls_config(cert_pem: &str, key_pem: &str, client_ca_pem: Option<&str>) -> rustls::ServerConfig {
    let certs: Vec<rustls::Certificate> = load_certificate_chain(cert_pem.as_bytes())
        .unwrap()
        .ders
        .into_iter()
        .map(rustls::Certificate)
        .collect();
    let key = rustls::PrivateKey(load_private_key(key_pem.as_bytes()).unwrap().der);
    let verifier = match client_ca_pem {
        Some(ca) => {
            let mut roots = rustls::RootCertStore::empty();
            for der in load_certificate_chain(ca.as_bytes()).unwrap().ders {
                roots.add(&rustls::Certificate(der)).unwrap();
            }
            rustls::AllowAnyAuthenticatedClient::new(roots)
        },
        None => rustls::NoClientAuth::new(),
    };
    let mut cfg = rustls::ServerConfig::new(verifier);
    cfg.set_single_cert(certs, key).unwrap();
    cfg
}

fn client_connector(pki: &TestPki) -> tokio_rustls::TlsConnector {
    let anchors = load_trust_anchors(pki.ca_bundle_pem.as_bytes()).unwrap();
    let chain = load_certificate_chain(pki.client_cert_pem.as_bytes()).unwrap();
    let key = load_private_key(pki.client_key_pem.as_bytes()).unwrap();
    let cfg = build_configuration(ClientIdentity { chain, key }, anchors).unwrap();
    tokio_rustls::TlsConnector::from(Arc::new(cfg.into_client_config()))
}

fn runtime() -> tokio::runtime::Runtime {
    tokio::runtime::Builder::new_multi_thread()
        .worker_threads(2)
        .enable_all()
        .build()
        .unwrap()
}

#[test]
fn echo_session_relays_ping_back() {
    let pki = make_pki();
    let rt = runtime();
    rt.block_on(async {
        let (client_io, server_io) = tokio::io::duplex(16384);
        let acceptor = tokio_rustls::TlsAcceptor::from(Arc::new(server_tls_config(
            &pki.server_cert_pem,
            &pki.server_key_pem,
            Some(&pki.ca1_pem),
        )));
        let server = tokio::spawn(async move {
            let mut tls = acceptor.accept(server_io).await.unwrap();
            let mut buf = [0u8; 1024];
            loop {
                let n = match tls.read(&mut buf).await {
                    Ok(0) => break,
                    Ok(n) => n,
                    Err(_) => break,
                };
                if tls.write_all(&buf[..n]).await.is_err() {
                    break;
                }
            }
        });

        let connector = client_connector(&pki);
        let domain = webpki::DNSNameRef::try_from_ascii_str("localhost").unwrap();
        let mut tls = connector.connect(domain, client_io).await.unwrap();

        let host = localhost_name();
        let greeting = build_greeting(&host);
        tls.write_all(&greeting).await.unwrap();
        tls.write_all(b"ping").await.unwrap();

        let mut echoed = vec![0u8; greeting.len() + 4];
        tls.read_exact(&mut echoed).await.unwrap();
        assert_eq!(&echoed[..greeting.len()], &greeting[..]);
        assert_eq!(&echoed[greeting.len()..], b"ping");

        drop(tls);
        server.await.unwrap();
    });
}

#[test]
fn untrusted_server_certificate_fails_the_handshake() {
    let pki = make_pki();
    let rt = runtime();
    rt.block_on(async {
        let (client_io, server_io) = tokio::io::duplex(16384);
        let acceptor = tokio_rustls::TlsAcceptor::from(Arc::new(server_tls_config(
            &pki.untrusted_cert_pem,
            &pki.untrusted_key_pem,
            None,
        )));
        let server = tokio::spawn(async move {
            // The handshake is expected to fail; the outcome is ignored.
            let _ = acceptor.accept(server_io).await;
        });

        let connector = client_connector(&pki);
        let domain = webpki::DNSNameRef::try_from_ascii_str("localhost").unwrap();
        let r = connector.connect(domain, client_io).await;
        assert!(r.is_err());
        server.await.unwrap();
    });
}

#[test]
fn immediate_close_is_retried_without_crashing() {
    let pki = make_pki();
    let rt = runtime();
    rt.block_on(async {
        let connector = client_connector(&pki);
        let domain = webpki::DNSNameRef::try_from_ascii_str("localhost").unwrap();
        let (mut s, mut a) = initial();
        for _ in 0..2 {
            assert_eq!((s, a), (TunnelState::Connecting, TunnelAction::OpenTransport));
            // The remote end accepts the connection, then closes it at
            // once, before any TLS handshake completes.
            let (client_io, server_io) = tokio::io::duplex(16384);
            drop(server_io);
            let (s2, a2) = step(s, TunnelEvent::TransportOpened);
            assert_eq!(a2, TunnelAction::PerformHandshake);
            let r = connector.connect(domain, client_io).await;
            assert!(r.is_err());
            let (s3, a3) = step(s2, TunnelEvent::HandshakeFailed);
            assert_eq!((s3, a3), (TunnelState::Cooldown, TunnelAction::Wait));
            let (s4, a4) = step(s3, TunnelEvent::CooldownElapsed);
            s = s4;
            a = a4;
        }
        assert_eq!(s, TunnelState::Connecting);
    });
}
