//! The trust anchor store: the roots against which peer certificates are
//! verified, read from a PEM bundle of CA certificates.
use vstd::prelude::*;
use tokio_rustls::rustls::{Certificate, RootCertStore};
use crate::pem::{certs, ders_of, error_text, pem_certificates};

verus! {

/// The store of root certificates.
#[verifier::external_type_specification]
#[verifier::external_body]
pub struct ExRootCertStore(tokio_rustls::rustls::RootCertStore);

/// The error with which the store refuses a certificate.
#[verifier::external_type_specification]
#[verifier::external_body]
pub struct ExRustlsError(tokio_rustls::rustls::Error);

/// The trust anchor that a DER certificate yields, as its subject, its
/// public key info and its name constraints; `None` where the certificate
/// cannot be decoded into one.
pub uninterp spec fn trust_anchor_of(der: Seq<u8>) -> Option<(Seq<u8>, Seq<u8>, Option<Seq<u8>>)>;

/// The trust anchors that a store holds, oldest first, each as its subject,
/// its public key info and its name constraints.
pub uninterp spec fn store_anchors(store: RootCertStore) -> Seq<(Seq<u8>, Seq<u8>, Option<Seq<u8>>)>;

/// `RootCertStore::empty` makes a store without any root.
pub assume_specification[ RootCertStore::empty ]() -> (store: RootCertStore)
    ensures
        store_anchors(store) == Seq::<(Seq<u8>, Seq<u8>, Option<Seq<u8>>)>::empty(),
;

/// Calls `RootCertStore::add` with the certificate. The store decodes the
/// certificate into a trust anchor: where that succeeds the anchor is
/// appended behind the roots already held, where it fails the store is left
/// as it was and the error is returned.
#[verifier::external_body]
fn add_certificate(store: &mut RootCertStore, der: &Vec<u8>) -> (r: Result<
    (),
    tokio_rustls::rustls::Error,
>)
    ensures
        r is Ok <==> trust_anchor_of(der@) is Some,
        r is Ok ==> store_anchors(*final(store)) == store_anchors(*old(store)).push(
            trust_anchor_of(der@)->0,
        ),
        r is Err ==> store_anchors(*final(store)) == store_anchors(*old(store)),
{
    store.add(&Certificate(der.clone()))
}

/// Renders the store's error with `to_string`. Nothing is claimed of the
/// text.
#[verifier::external_body]
fn rejection_text(error: &tokio_rustls::rustls::Error) -> (r: String) {
    error.to_string()
}

/// Why a trust anchor bundle could not be read.
#[derive(Debug)]
pub enum TrustAnchorError {
    /// The bundle is not well-formed PEM; the text is the reader's message.
    MalformedPem(String),
    /// The store refused the certificate at this position of the bundle;
    /// the text is the store's message.
    Rejected(usize, String),
}

impl TrustAnchorError {
    /// The message of the reader or of the store.
    pub fn message(&self) -> (r: &str)
        ensures
            r@ == match *self {
                TrustAnchorError::MalformedPem(text) => text@,
                TrustAnchorError::Rejected(_, text) => text@,
            },
    {
        match self {
            TrustAnchorError::MalformedPem(text) => text.as_str(),
            TrustAnchorError::Rejected(_, text) => text.as_str(),
        }
    }
}

/// The position of the first certificate that yields no trust anchor, or
/// the number of certificates where each yields one.
pub open spec fn first_rejected(ders: Seq<Seq<u8>>) -> int
    decreases ders.len(),
{
    if ders.len() == 0 {
        0
    } else if trust_anchor_of(ders[0]) is None {
        0
    } else {
        1 + first_rejected(ders.skip(1))
    }
}

/// The trust anchors of the certificates before position `n`.
pub open spec fn anchors_of(ders: Seq<Seq<u8>>, n: int) -> Seq<(Seq<u8>, Seq<u8>, Option<Seq<u8>>)> {
    Seq::new(n as nat, |i: int| trust_anchor_of(ders[i])->0)
}

/// `first_rejected` is the least position without a trust anchor.
pub proof fn lemma_first_rejected(ders: Seq<Seq<u8>>)
    ensures
        0 <= first_rejected(ders) <= ders.len(),
        forall|i: int| 0 <= i < first_rejected(ders) ==> trust_anchor_of(#[trigger] ders[i]) is Some,
        first_rejected(ders) < ders.len() ==> trust_anchor_of(ders[first_rejected(ders)]) is None,
    decreases ders.len(),
{
    if ders.len() > 0 && trust_anchor_of(ders[0]) is Some {
        let rest = ders.skip(1);
        lemma_first_rejected(rest);
        assert forall|i: int| 0 <= i < first_rejected(ders) implies trust_anchor_of(
            #[trigger] ders[i],
        ) is Some by {
            if i > 0 {
                assert(ders[i] == rest[i - 1]);
            }
        }
        if first_rejected(ders) < ders.len() {
            assert(ders[first_rejected(ders)] == rest[first_rejected(rest)]);
        }
    }
}

/// Whether `r` is the store built from `ders`: with every certificate's
/// trust anchor, in order, where each yields one; otherwise the refusal of
/// the first that yields none.
pub open spec fn is_store_of(r: Result<RootCertStore, TrustAnchorError>, ders: Seq<Seq<u8>>) -> bool {
    match r {
        Ok(store) => first_rejected(ders) == ders.len() && store_anchors(store) == anchors_of(
            ders,
            ders.len() as int,
        ),
        Err(TrustAnchorError::Rejected(at, _)) => at == first_rejected(ders) && at < ders.len(),
        Err(TrustAnchorError::MalformedPem(_)) => false,
    }
}

/// Builds a store from DER certificates, adding them in order to an empty
/// store. The first certificate that the store refuses ends the work, and
/// no store is returned.
pub fn store_from_certificates(certificates: &Vec<Vec<u8>>) -> (r: Result<
    RootCertStore,
    TrustAnchorError,
>)
    ensures
        is_store_of(r, ders_of(certificates@)),
{
    let ghost ders = ders_of(certificates@);
    proof {
        lemma_first_rejected(ders);
    }
    let mut store = RootCertStore::empty();
    let mut i: usize = 0;
    while i < certificates.len()
        invariant
            0 <= i <= certificates.len(),
            ders == ders_of(certificates@),
            ders.len() == certificates.len(),
            i <= first_rejected(ders) <= ders.len(),
            store_anchors(store) == anchors_of(ders, i as int),
            forall|j: int| 0 <= j < first_rejected(ders) ==> trust_anchor_of(#[trigger] ders[j]) is Some,
            first_rejected(ders) < ders.len() ==> trust_anchor_of(ders[first_rejected(ders)]) is None,
        decreases certificates.len() - i,
    {
        assert(ders[i as int] == certificates[i as int]@);
        match add_certificate(&mut store, &certificates[i]) {
            Ok(()) => {
                assert(anchors_of(ders, i as int).push(trust_anchor_of(ders[i as int])->0)
                    =~= anchors_of(ders, i + 1));
            },
            Err(error) => {
                return Err(TrustAnchorError::Rejected(i, rejection_text(&error)));
            },
        }
        i = i + 1;
    }
    Ok(store)
}

/// Whether `r` is what reading the bundle `pem` gives: the refusal of the
/// bundle where it is not well-formed PEM, else the store of its
/// certificates.
pub open spec fn is_trust_anchor_of(r: Result<RootCertStore, TrustAnchorError>, pem: Seq<u8>) -> bool {
    match pem_certificates(pem) {
        None => r matches Err(TrustAnchorError::MalformedPem(_)),
        Some(ders) => is_store_of(r, ders),
    }
}

/// Reads a PEM bundle of CA certificates into a store of trust anchors.
///
/// Sections that are no certificates are passed over, and a bundle without
/// any certificate gives the empty store. The store is returned whole or
/// not at all.
pub fn read_trust_anchor(trust_anchor: &[u8]) -> (r: Result<RootCertStore, TrustAnchorError>)
    ensures
        is_trust_anchor_of(r, trust_anchor@),
{
    match certs(trust_anchor) {
        Ok(certificates) => store_from_certificates(&certificates),
        Err(error) => Err(TrustAnchorError::MalformedPem(error_text(&error))),
    }
}

} // verus!
