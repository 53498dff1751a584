//! Reading PEM bundles: the sections of one kind, each as its DER bytes.
use vstd::prelude::*;

verus! {

/// An error of the PEM reader.
#[verifier::external_type_specification]
#[verifier::external_body]
pub struct ExIoError(std::io::Error);

/// The DER contents of the `CERTIFICATE` sections of a PEM bundle, in the
/// order of the bundle; `None` where the reader fails on the bundle.
pub uninterp spec fn pem_certificates(pem: Seq<u8>) -> Option<Seq<Seq<u8>>>;

/// The DER contents of the `PRIVATE KEY` (PKCS#8) sections of a PEM bundle;
/// `None` where the reader fails on the bundle.
pub uninterp spec fn pem_pkcs8_keys(pem: Seq<u8>) -> Option<Seq<Seq<u8>>>;

/// The DER contents of the `RSA PRIVATE KEY` (PKCS#1) sections of a PEM
/// bundle; `None` where the reader fails on the bundle.
pub uninterp spec fn pem_rsa_keys(pem: Seq<u8>) -> Option<Seq<Seq<u8>>>;

/// The DER contents of the `EC PRIVATE KEY` (SEC1) sections of a PEM
/// bundle; `None` where the reader fails on the bundle.
pub uninterp spec fn pem_ec_keys(pem: Seq<u8>) -> Option<Seq<Seq<u8>>>;

/// The byte strings that a vector of byte vectors holds.
pub open spec fn ders_of(items: Seq<Vec<u8>>) -> Seq<Seq<u8>> {
    items.map_values(|item: Vec<u8>| item@)
}

/// Whether the reader's answer `r` is the one that `expected` records.
pub open spec fn reads_as(r: Result<Vec<Vec<u8>>, std::io::Error>, expected: Option<Seq<Seq<u8>>>) -> bool {
    match r {
        Ok(items) => expected == Some(ders_of(items@)),
        Err(_) => expected is None,
    }
}

/// Calls `rustls_pemfile::certs` on the bytes. The reader works on the
/// bytes alone, so what it answers is a function of them, named
/// `pem_certificates`; nothing else is claimed of it.
#[verifier::external_body]
pub(crate) fn certs(pem: &[u8]) -> (r: Result<Vec<Vec<u8>>, std::io::Error>)
    ensures
        reads_as(r, pem_certificates(pem@)),
{
    let mut reader = pem;
    rustls_pemfile::certs(&mut reader)
}

/// Calls `rustls_pemfile::pkcs8_private_keys` on the bytes; its answer is
/// named `pem_pkcs8_keys`.
#[verifier::external_body]
pub(crate) fn pkcs8_private_keys(pem: &[u8]) -> (r: Result<Vec<Vec<u8>>, std::io::Error>)
    ensures
        reads_as(r, pem_pkcs8_keys(pem@)),
{
    let mut reader = pem;
    rustls_pemfile::pkcs8_private_keys(&mut reader)
}

/// Calls `rustls_pemfile::rsa_private_keys` on the bytes; its answer is
/// named `pem_rsa_keys`.
#[verifier::external_body]
pub(crate) fn rsa_private_keys(pem: &[u8]) -> (r: Result<Vec<Vec<u8>>, std::io::Error>)
    ensures
        reads_as(r, pem_rsa_keys(pem@)),
{
    let mut reader = pem;
    rustls_pemfile::rsa_private_keys(&mut reader)
}

/// Calls `rustls_pemfile::ec_private_keys` on the bytes; its answer is
/// named `pem_ec_keys`.
#[verifier::external_body]
pub(crate) fn ec_private_keys(pem: &[u8]) -> (r: Result<Vec<Vec<u8>>, std::io::Error>)
    ensures
        reads_as(r, pem_ec_keys(pem@)),
{
    let mut reader = pem;
    rustls_pemfile::ec_private_keys(&mut reader)
}

/// Renders the reader's error with `to_string`. Nothing is claimed of the
/// text.
#[verifier::external_body]
pub(crate) fn error_text(error: &std::io::Error) -> (r: String) {
    error.to_string()
}

} // verus!
