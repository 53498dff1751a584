//! Key and certificate material: the PEM bytes of a private key and of a
//! certificate chain, and the identity that they decode to.
use vstd::prelude::*;
use vstd::string::StringExecFns;
use crate::pem::{
    certs, ders_of, ec_private_keys, error_text, pem_certificates, pem_ec_keys, pem_pkcs8_keys,
    pem_rsa_keys, pkcs8_private_keys, rsa_private_keys,
};

verus! {

/// The encoding in which a private key was found.
#[derive(Clone, Copy, Debug, PartialEq, Eq, Structural)]
pub enum KeyEncoding {
    /// PKCS#8, a `PRIVATE KEY` section.
    Pkcs8,
    /// PKCS#1, an `RSA PRIVATE KEY` section.
    Rsa,
    /// SEC1, an `EC PRIVATE KEY` section.
    Ec,
}

/// What is wrong with a configuration.
#[derive(Clone, Copy, Debug, PartialEq, Eq, Structural)]
pub enum ConfigErrorKind {
    /// The certificate bytes are not well-formed PEM.
    MalformedCertificate,
    /// The certificate bytes hold no certificate.
    NoCertificate,
    /// The key bytes are not well-formed PEM.
    MalformedKey,
    /// The key bytes hold no private key in a known encoding.
    NoPrivateKey,
    /// No identity was configured.
    NoIdentity,
    /// Several identities were configured by host name and none as the
    /// default.
    AmbiguousDefault,
    /// The trust anchor bundle could not be read into a store.
    MalformedTrustAnchor,
}

/// A configuration error: what is wrong, and a message for the operator.
#[derive(Debug)]
pub struct ConfigError {
    pub kind: ConfigErrorKind,
    pub message: String,
}

/// The PEM bytes of a private key and of a certificate chain.
#[derive(Debug)]
pub struct Keycert {
    key: Vec<u8>,
    cert: Vec<u8>,
}

/// The mathematical value of a [`Keycert`].
pub struct KeycertView {
    pub key: Seq<u8>,
    pub cert: Seq<u8>,
}

impl View for Keycert {
    type V = KeycertView;

    closed spec fn view(&self) -> KeycertView {
        KeycertView { key: self.key@, cert: self.cert@ }
    }
}

/// A server identity: the certificate chain, leaf first, and the private
/// key, each as DER bytes.
#[derive(Debug)]
pub struct Identity {
    pub chain: Vec<Vec<u8>>,
    pub encoding: KeyEncoding,
    pub key: Vec<u8>,
}

/// The mathematical value of an [`Identity`].
pub struct IdentityView {
    pub chain: Seq<Seq<u8>>,
    pub encoding: KeyEncoding,
    pub key: Seq<u8>,
}

impl View for Identity {
    type V = IdentityView;

    open spec fn view(&self) -> IdentityView {
        IdentityView { chain: ders_of(self.chain@), encoding: self.encoding, key: self.key@ }
    }
}

/// The key that is used among those found: the first PKCS#8 key; without
/// one the first PKCS#1 key; without one the first SEC1 key.
pub open spec fn chosen_key(pkcs8: Seq<Seq<u8>>, rsa: Seq<Seq<u8>>, ec: Seq<Seq<u8>>) -> Option<
    (KeyEncoding, Seq<u8>),
> {
    if pkcs8.len() > 0 {
        Some((KeyEncoding::Pkcs8, pkcs8[0]))
    } else if rsa.len() > 0 {
        Some((KeyEncoding::Rsa, rsa[0]))
    } else if ec.len() > 0 {
        Some((KeyEncoding::Ec, ec[0]))
    } else {
        None
    }
}

/// The identity made of a certificate chain and the keys found, or what is
/// wrong with them.
pub open spec fn assembled(
    chain: Seq<Seq<u8>>,
    pkcs8: Seq<Seq<u8>>,
    rsa: Seq<Seq<u8>>,
    ec: Seq<Seq<u8>>,
) -> Result<IdentityView, ConfigErrorKind> {
    if chain.len() == 0 {
        Err(ConfigErrorKind::NoCertificate)
    } else {
        match chosen_key(pkcs8, rsa, ec) {
            Some((encoding, key)) => Ok(IdentityView { chain, encoding, key }),
            None => Err(ConfigErrorKind::NoPrivateKey),
        }
    }
}

/// The identity that key and certificate bytes decode to, or what is wrong
/// with them. The certificate bytes are judged first.
pub open spec fn identity_of(material: KeycertView) -> Result<IdentityView, ConfigErrorKind> {
    match pem_certificates(material.cert) {
        None => Err(ConfigErrorKind::MalformedCertificate),
        Some(chain) => match (
            pem_pkcs8_keys(material.key),
            pem_rsa_keys(material.key),
            pem_ec_keys(material.key),
        ) {
            (Some(pkcs8), Some(rsa), Some(ec)) => assembled(chain, pkcs8, rsa, ec),
            _ => Err(ConfigErrorKind::MalformedKey),
        },
    }
}

/// Whether `r` reports `expected`: the identity with that value, or an
/// error of that kind.
pub open spec fn reports(r: Result<Identity, ConfigError>, expected: Result<
    IdentityView,
    ConfigErrorKind,
>) -> bool {
    match r {
        Ok(identity) => expected == Ok::<IdentityView, ConfigErrorKind>(identity@),
        Err(error) => expected == Err::<IdentityView, ConfigErrorKind>(error.kind),
    }
}

/// An error of the given kind with the given message.
pub(crate) fn fault(kind: ConfigErrorKind, message: &str) -> (r: ConfigError)
    ensures
        r.kind == kind,
        r.message@ == message@,
{
    ConfigError { kind, message: String::from_str(message) }
}

/// Makes an identity of a decoded certificate chain and the decoded keys of
/// each encoding, choosing the key by the order of the encodings.
pub fn assemble(chain: Vec<Vec<u8>>, pkcs8: Vec<Vec<u8>>, rsa: Vec<Vec<u8>>, ec: Vec<Vec<u8>>) -> (r:
    Result<Identity, ConfigError>)
    ensures
        reports(r, assembled(ders_of(chain@), ders_of(pkcs8@), ders_of(rsa@), ders_of(ec@))),
{
    if chain.len() == 0 {
        return Err(fault(ConfigErrorKind::NoCertificate, "no certificate found"));
    }
    let mut pkcs8 = pkcs8;
    let mut rsa = rsa;
    let mut ec = ec;
    if pkcs8.len() > 0 {
        let key = pkcs8.swap_remove(0);
        Ok(Identity { chain, encoding: KeyEncoding::Pkcs8, key })
    } else if rsa.len() > 0 {
        let key = rsa.swap_remove(0);
        Ok(Identity { chain, encoding: KeyEncoding::Rsa, key })
    } else if ec.len() > 0 {
        let key = ec.swap_remove(0);
        Ok(Identity { chain, encoding: KeyEncoding::Ec, key })
    } else {
        Err(fault(ConfigErrorKind::NoPrivateKey, "no private key found"))
    }
}

impl Keycert {
    /// Material without key and without certificate.
    pub fn new() -> (r: Self)
        ensures
            r@ == (KeycertView { key: Seq::empty(), cert: Seq::empty() }),
    {
        Keycert { key: Vec::new(), cert: Vec::new() }
    }

    /// Sets the private key to the given PEM bytes.
    pub fn key_from_bytes(self, key: Vec<u8>) -> (r: Self)
        ensures
            r@ == (KeycertView { key: key@, cert: self@.cert }),
    {
        Keycert { key, cert: self.cert }
    }

    /// Sets the certificate chain to the given PEM bytes.
    pub fn cert_from_bytes(self, cert: Vec<u8>) -> (r: Self)
        ensures
            r@ == (KeycertView { key: self@.key, cert: cert@ }),
    {
        Keycert { key: self.key, cert }
    }

    /// The PEM bytes of the private key.
    pub fn key(&self) -> (r: &Vec<u8>)
        ensures
            r@ == self@.key,
    {
        &self.key
    }

    /// The PEM bytes of the certificate chain.
    pub fn cert(&self) -> (r: &Vec<u8>)
        ensures
            r@ == self@.cert,
    {
        &self.cert
    }

    /// Decodes the material into an identity.
    ///
    /// The certificate bytes must be well-formed PEM with at least one
    /// certificate; the key bytes must be well-formed PEM with at least one
    /// private key. Whether key and leaf certificate belong together is not
    /// judged here: a handshake shows it.
    pub fn identity(&self) -> (r: Result<Identity, ConfigError>)
        ensures
            reports(r, identity_of(self@)),
    {
        let chain = match certs(self.cert.as_slice()) {
            Ok(chain) => chain,
            Err(error) => {
                return Err(
                    ConfigError {
                        kind: ConfigErrorKind::MalformedCertificate,
                        message: error_text(&error),
                    },
                );
            },
        };
        let pkcs8 = pkcs8_private_keys(self.key.as_slice());
        let rsa = rsa_private_keys(self.key.as_slice());
        let ec = ec_private_keys(self.key.as_slice());
        match (pkcs8, rsa, ec) {
            (Ok(pkcs8), Ok(rsa), Ok(ec)) => assemble(chain, pkcs8, rsa, ec),
            (Err(error), _, _) | (_, Err(error), _) | (_, _, Err(error)) => Err(
                ConfigError { kind: ConfigErrorKind::MalformedKey, message: error_text(&error) },
            ),
        }
    }
}

/// Material decodes exactly where its certificate bytes are well-formed
/// PEM with a certificate and its key bytes are well-formed PEM with a
/// private key in one of the three encodings.
pub proof fn law_decodes_iff_well_formed(material: KeycertView)
    ensures
        identity_of(material) is Ok <==> {
            &&& pem_certificates(material.cert) is Some
            &&& pem_certificates(material.cert)->0.len() > 0
            &&& pem_pkcs8_keys(material.key) is Some
            &&& pem_rsa_keys(material.key) is Some
            &&& pem_ec_keys(material.key) is Some
            &&& pem_pkcs8_keys(material.key)->0.len() + pem_rsa_keys(material.key)->0.len()
                + pem_ec_keys(material.key)->0.len() > 0
        },
{
}

/// Certificate bytes on which the reader fails, or in which it finds no
/// certificate, decode to no identity, whatever the key bytes are.
pub proof fn law_malformed_certificate(material: KeycertView)
    requires
        pem_certificates(material.cert) is None || pem_certificates(material.cert)->0.len() == 0,
    ensures
        identity_of(material) is Err,
        pem_certificates(material.cert) is None ==> identity_of(material)
            == Err::<IdentityView, _>(ConfigErrorKind::MalformedCertificate),
{
}

/// A PKCS#8 key is preferred to any other, and a PKCS#1 key to a SEC1 key.
pub proof fn law_key_priority(pkcs8: Seq<Seq<u8>>, rsa: Seq<Seq<u8>>, ec: Seq<Seq<u8>>)
    ensures
        pkcs8.len() > 0 ==> chosen_key(pkcs8, rsa, ec) == Some((KeyEncoding::Pkcs8, pkcs8[0])),
        pkcs8.len() == 0 && rsa.len() > 0 ==> chosen_key(pkcs8, rsa, ec) == Some(
            (KeyEncoding::Rsa, rsa[0]),
        ),
        pkcs8.len() == 0 && rsa.len() == 0 && ec.len() > 0 ==> chosen_key(pkcs8, rsa, ec) == Some(
            (KeyEncoding::Ec, ec[0]),
        ),
        chosen_key(pkcs8, rsa, ec) is None <==> pkcs8.len() + rsa.len() + ec.len() == 0,
{
}

} // verus!
