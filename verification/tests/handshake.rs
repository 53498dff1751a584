use std::sync::Arc;
use std::time::Duration;

use rcgen::{
    BasicConstraints, CertificateParams, DnType, ExtendedKeyUsagePurpose, IsCa, KeyUsagePurpose,
};
use tokio::io::{AsyncReadExt, AsyncWriteExt, DuplexStream};
use tokio_rustls::rustls::server::{
    AllowAnyAnonymousOrAuthenticatedClient, AllowAnyAuthenticatedClient, ClientHello, NoClientAuth,
    ResolvesServerCert,
};
use tokio_rustls::rustls::sign::{any_supported_type, CertifiedKey};
use tokio_rustls::rustls::{Certificate, ClientConfig, PrivateKey, RootCertStore, ServerName};
use tokio_rustls::{TlsAcceptor, TlsConnector};

use tls_acceptor::acceptor::{
    decide_admission, Acceptor, Action, Admission, Event, HandshakeFailure, PeerCertificate, Phase,
};
use tls_acceptor::config::{ClientAuthMode, RustlsConfig, ServerConfig};
use tls_acceptor::keycert::{Identity, KeyEncoding, Keycert};
use tls_acceptor::trust_anchor::read_trust_anchor;

/// A certificate authority made for one test, with its certificate as PEM.
struct Authority {
    signer: rcgen::Certificate,
    pem: String,
}

/// A certificate and its key, both as PEM, and the key as DER.
struct Issued {
    cert_pem: String,
    key_pem: String,
    key_der: Vec<u8>,
}

fn authority() -> Authority {
    let mut params = CertificateParams::new(Vec::<String>::new());
    params.distinguished_name.push(DnType::CommonName, "test root");
    params.is_ca = IsCa::Ca(BasicConstraints::Unconstrained);
    params.key_usages = vec![KeyUsagePurpose::KeyCertSign, KeyUsagePurpose::CrlSign];
    let signer = rcgen::Certificate::from_params(params).unwrap();
    let pem = signer.serialize_pem().unwrap();
    Authority { signer, pem }
}

fn issue(authority: &Authority, names: Vec<String>, common_name: &str, usage: ExtendedKeyUsagePurpose) -> Issued {
    let mut params = CertificateParams::new(names);
    params.distinguished_name.push(DnType::CommonName, common_name);
    params.key_usages = vec![KeyUsagePurpose::DigitalSignature];
    params.extended_key_usages = vec![usage];
    let cert = rcgen::Certificate::from_params(params).unwrap();
    Issued {
        cert_pem: cert.serialize_pem_with_signer(&authority.signer).unwrap(),
        key_pem: cert.serialize_private_key_pem(),
        key_der: cert.serialize_private_key_der(),
    }
}

fn issue_server(authority: &Authority, host: &str) -> Issued {
    issue(authority, vec![host.to_string()], host, ExtendedKeyUsagePurpose::ServerAuth)
}

fn material(issued: &Issued) -> Keycert {
    Keycert::new()
        .key_from_bytes(issued.key_pem.as_bytes().to_vec())
        .cert_from_bytes(issued.cert_pem.as_bytes().to_vec())
}

fn certified(identity: &Identity) -> Arc<CertifiedKey> {
    let chain = identity.chain.iter().cloned().map(Certificate).collect();
    let key = any_supported_type(&PrivateKey(identity.key.clone())).unwrap();
    Arc::new(CertifiedKey::new(chain, key))
}

/// Presents the identity at the position that the compiled configuration
/// gives for the host name asked for.
struct ByHostName {
    config: ServerConfig,
    default: Arc<CertifiedKey>,
    named: Vec<Arc<CertifiedKey>>,
}

impl ResolvesServerCert for ByHostName {
    fn resolve(&self, client_hello: ClientHello) -> Option<Arc<CertifiedKey>> {
        match self.config.position_for(client_hello.server_name()) {
            Some(at) => Some(self.named[at].clone()),
            None => Some(self.default.clone()),
        }
    }
}

fn server_side(mut compiled: ServerConfig) -> TlsAcceptor {
    let default = certified(&compiled.default);
    let named = compiled.named.iter().map(|(_, identity)| certified(identity)).collect();
    let roots = compiled.roots.take().unwrap_or_else(RootCertStore::empty);
    let verifier = match compiled.client_auth {
        ClientAuthMode::Off => NoClientAuth::boxed(),
        ClientAuthMode::Optional => AllowAnyAnonymousOrAuthenticatedClient::new(roots).boxed(),
        ClientAuthMode::Required => AllowAnyAuthenticatedClient::new(roots).boxed(),
    };
    let config = tokio_rustls::rustls::ServerConfig::builder()
        .with_safe_defaults()
        .with_client_cert_verifier(verifier)
        .with_cert_resolver(Arc::new(ByHostName { config: compiled, default, named }));
    TlsAcceptor::from(Arc::new(config))
}

fn client_side(authority: &Authority, own: Option<&Issued>) -> TlsConnector {
    let roots = read_trust_anchor(authority.pem.as_bytes()).unwrap();
    assert_eq!(roots.len(), 1);
    let builder = ClientConfig::builder().with_safe_defaults().with_root_certificates(roots);
    let config = match own {
        Some(issued) => {
            let identity = material(issued).identity().unwrap();
            let chain = identity.chain.into_iter().map(Certificate).collect();
            builder.with_client_auth_cert(chain, PrivateKey(identity.key)).unwrap()
        }
        None => builder.with_no_client_auth(),
    };
    TlsConnector::from(Arc::new(config))
}

/// Connects as a client that asks for `host`, sends the number, and gives
/// the certificate that the server presented.
async fn client_sends(
    connector: TlsConnector,
    stream: DuplexStream,
    host: String,
    value: i32,
) -> std::io::Result<Vec<u8>> {
    let name = ServerName::try_from(host.as_str()).unwrap();
    let mut secured = connector.connect(name, stream).await?;
    let presented = secured.get_ref().1.peer_certificates().unwrap()[0].0.clone();
    secured.write_i32(value).await?;
    secured.flush().await?;
    let mut rest = Vec::new();
    let _ = secured.read_to_end(&mut rest).await;
    Ok(presented)
}

/// What one handshake gave: the number that the server read, whether the
/// client showed a certificate, and the certificate that the server
/// presented.
struct Outcome {
    value: i32,
    identified: bool,
    presented: Vec<u8>,
}

fn handshake(acceptor: TlsAcceptor, connector: TlsConnector, host: &str) -> std::io::Result<Outcome> {
    let host = host.to_string();
    let runtime = tokio::runtime::Builder::new_current_thread().enable_all().build().unwrap();
    runtime.block_on(async move {
        let (near, far) = tokio::io::duplex(1 << 16);
        let client = tokio::spawn(client_sends(connector, far, host, 518));
        let mut secured = acceptor.accept(near).await?;
        let value = secured.read_i32().await?;
        let identified = secured.get_ref().1.peer_certificates().is_some();
        drop(secured);
        let presented = client.await.unwrap()?;
        Ok(Outcome { value, identified, presented })
    })
}

fn with_client_auth(mode: ClientAuthMode, with_certificate: bool) -> std::io::Result<Outcome> {
    let authority = authority();
    let server = issue_server(&authority, "testserver.com");
    let own = issue(&authority, Vec::new(), "client", ExtendedKeyUsagePurpose::ClientAuth);
    let config = RustlsConfig::new(Some(material(&server)))
        .client_auth(authority.pem.as_bytes().to_vec(), mode);
    let acceptor = server_side(config.compile().unwrap());
    let connector = client_side(&authority, if with_certificate { Some(&own) } else { None });
    handshake(acceptor, connector, "testserver.com")
}

#[test]
fn generated_material_decodes() {
    let authority = authority();
    let server = issue_server(&authority, "testserver.com");
    let identity = material(&server).identity().unwrap();
    assert_eq!(identity.chain.len(), 1);
    assert_eq!(identity.chain[0][0], 0x30);
    assert_eq!(identity.encoding, KeyEncoding::Pkcs8);
    assert_eq!(identity.key, server.key_der);
}

#[test]
fn secured_stream_carries_the_number() {
    let authority = authority();
    let server = issue_server(&authority, "testserver.com");
    let compiled = RustlsConfig::new(Some(material(&server))).compile().unwrap();
    let expected = compiled.default.chain[0].clone();
    let outcome =
        handshake(server_side(compiled), client_side(&authority, None), "testserver.com").unwrap();
    assert_eq!(outcome.value, 518);
    assert!(!outcome.identified);
    assert_eq!(outcome.presented, expected);
}

#[test]
fn client_that_trusts_another_root_does_not_connect() {
    let authority = authority();
    let stranger = self::authority();
    let server = issue_server(&authority, "testserver.com");
    let compiled = RustlsConfig::new(Some(material(&server))).compile().unwrap();
    assert!(handshake(server_side(compiled), client_side(&stranger, None), "testserver.com").is_err());
}

#[test]
fn client_without_certificate_is_let_in_where_none_is_asked_for() {
    let outcome = with_client_auth(ClientAuthMode::Off, false).unwrap();
    assert_eq!(outcome.value, 518);
    assert!(!outcome.identified);
    assert_eq!(decide_admission(ClientAuthMode::Off, PeerCertificate::Absent), Admission::Anonymous);
}

#[test]
fn client_without_certificate_is_anonymous_where_optional() {
    let outcome = with_client_auth(ClientAuthMode::Optional, false).unwrap();
    assert_eq!(outcome.value, 518);
    assert!(!outcome.identified);
    assert_eq!(decide_admission(ClientAuthMode::Optional, PeerCertificate::Absent), Admission::Anonymous);
}

#[test]
fn client_without_certificate_is_rejected_where_required() {
    assert!(with_client_auth(ClientAuthMode::Required, false).is_err());
    assert_eq!(decide_admission(ClientAuthMode::Required, PeerCertificate::Absent), Admission::Rejected);
}

#[test]
fn client_with_certificate_is_authenticated() {
    for mode in [ClientAuthMode::Optional, ClientAuthMode::Required] {
        let outcome = with_client_auth(mode, true).unwrap();
        assert_eq!(outcome.value, 518);
        assert!(outcome.identified);
        assert_eq!(decide_admission(mode, PeerCertificate::Verified), Admission::Authenticated);
    }
    let outcome = with_client_auth(ClientAuthMode::Off, true).unwrap();
    assert!(!outcome.identified);
}

/// The certificate that a server with a default identity for
/// `fallback.example` and one added for `named.example` presents to a
/// client that asks for `host`, beside the two certificates configured.
fn presented_to(host: &str) -> (Vec<u8>, Vec<u8>, Vec<u8>) {
    let authority = authority();
    let fallback = issue(
        &authority,
        vec!["fallback.example".to_string(), "unknown.example".to_string()],
        "fallback.example",
        ExtendedKeyUsagePurpose::ServerAuth,
    );
    let named = issue_server(&authority, "named.example");
    let compiled = RustlsConfig::new(Some(material(&fallback)))
        .add_identity("named.example".to_string(), material(&named))
        .compile()
        .unwrap();
    let default_cert = compiled.default.chain[0].clone();
    let named_cert = compiled.named[0].1.chain[0].clone();
    let outcome = handshake(server_side(compiled), client_side(&authority, None), host).unwrap();
    assert_eq!(outcome.value, 518);
    (outcome.presented, default_cert, named_cert)
}

#[test]
fn matching_host_name_gets_its_identity() {
    let (presented, default_cert, named_cert) = presented_to("named.example");
    assert_eq!(presented, named_cert);
    assert_ne!(presented, default_cert);
}

#[test]
fn other_host_name_gets_the_default_identity() {
    for host in ["fallback.example", "unknown.example"] {
        let (presented, default_cert, named_cert) = presented_to(host);
        assert_eq!(presented, default_cert);
        assert_ne!(presented, named_cert);
    }
}

#[test]
fn stalled_handshake_times_out_alone() {
    let authority = authority();
    let server = issue_server(&authority, "testserver.com");
    let tls = server_side(RustlsConfig::new(Some(material(&server))).compile().unwrap());
    let connector = client_side(&authority, None);
    let runtime = tokio::runtime::Builder::new_current_thread().enable_all().build().unwrap();
    let (actions, phase, later) = runtime.block_on(async move {
        let mut state = Acceptor::new();
        state.step(Event::Bound);
        let (report, mut inbox) = tokio::sync::mpsc::unbounded_channel();
        let mut idle = Vec::new();
        for id in 0..4u64 {
            let (near, far) = tokio::io::duplex(1 << 16);
            assert_eq!(state.step(Event::Transport(id)), Action::StartHandshake(id));
            let tls = tls.clone();
            let report = report.clone();
            tokio::spawn(async move {
                let limit = Duration::from_millis(2000);
                let event = match tokio::time::timeout(limit, tls.accept(near)).await {
                    Ok(Ok(_)) => Event::HandshakeDone(id),
                    Ok(Err(_)) => Event::HandshakeFailed(id, HandshakeFailure::MalformedRecord),
                    Err(_) => Event::TimedOut(id),
                };
                let _ = report.send(event);
            });
            if id == 2 {
                idle.push(far);
            } else {
                tokio::spawn(client_sends(connector.clone(), far, "testserver.com".to_string(), 518));
            }
        }
        let mut actions = Vec::new();
        for _ in 0..4 {
            let event = inbox.recv().await.unwrap();
            actions.push(state.step(event));
        }
        drop(idle);
        let later = state.step(Event::Transport(4));
        (actions, state.phase(), later)
    });
    assert_eq!(actions[3], Action::Report(2, HandshakeFailure::Timeout));
    for id in [0u64, 1, 3] {
        assert!(actions[..3].contains(&Action::Yield(id)));
    }
    assert_eq!(phase, Phase::Listening);
    assert_eq!(later, Action::StartHandshake(4));
}
