//! The server's self-signed certificate and the pinning of its hash by clients:
//! the server prints the Base64 text of the SHA-256 hash of its certificate, and a
//! client accepts a server certificate only when it has that hash.
use vstd::prelude::*;

use crate::crypto::{
    base64_url_decode, base64_url_decoding, base64_url_encode, base64_url_encoding,
    lemma_base64_url_decoding_of_encoding, rcgen_self_signed,
    sha256, sha256_digest,
};
use crate::error::Error;

verus! {

/// A freshly generated self-signed certificate and its private key.
#[derive(Debug)]
pub struct SelfSignedCertificate {
    /// The certificate, DER encoded.
    pub cert_der: Vec<u8>,
    /// The private key, PKCS#8 DER encoded.
    pub key_der: Vec<u8>,
    /// SHA-256 hash of `cert_der`.
    pub cert_hash: Vec<u8>,
    /// The certificate, PEM encoded.
    pub cert_pem: String,
    /// The private key, PEM encoded.
    pub key_pem: String,
}

/// SHA-256 hash of a DER certificate.
pub fn hash_certificate(certificate: &[u8]) -> (r: Vec<u8>)
    ensures
        r@ == sha256(certificate@),
        r@.len() == 32,
{
    sha256_digest(certificate)
}

/// Generates a self-signed certificate for `subject_alt_name` with a fresh key,
/// and hashes it. Fails with `TLS` when the certificate cannot be made.
pub fn generate_self_signed_certificate(subject_alt_name: &str) -> (r: Result<
    SelfSignedCertificate,
    Error,
>)
    ensures
        r matches Ok(c) ==> c.cert_hash@ == sha256(c.cert_der@),
        r matches Err(e) ==> e is TLS,
{
    match rcgen_self_signed(subject_alt_name) {
        Some((cert_der, key_der, cert_pem, key_pem)) => {
            let cert_hash = hash_certificate(cert_der.as_slice());
            Ok(SelfSignedCertificate { cert_der, key_der, cert_hash, cert_pem, key_pem })
        },
        None => Err(Error::TLS("Failed to generate a self signed certificate.".to_owned())),
    }
}

/// Whether a server certificate has the pinned hash.
pub open spec fn spec_certificate_matches(expected_hash: Seq<u8>, certificate: Seq<u8>) -> bool {
    sha256(certificate) == expected_hash
}

/// Accepts the server certificate `end_entity` exactly when its SHA-256 hash is
/// `expected_hash`.
pub fn certificate_matches(expected_hash: &[u8], end_entity: &[u8]) -> (r: bool)
    ensures
        r == spec_certificate_matches(expected_hash@, end_entity@),
{
    let got = hash_certificate(end_entity);
    if got.len() != expected_hash.len() {
        return false;
    }
    let mut i: usize = 0;
    while i < got.len()
        invariant
            got@ == sha256(end_entity@),
            got@.len() == expected_hash@.len(),
            i <= got@.len(),
            forall|k: int| 0 <= k < i ==> got@[k] == expected_hash@[k],
        decreases got@.len() - i,
    {
        if got[i] != expected_hash[i] {
            return false;
        }
        i = i + 1;
    }
    assert(got@ =~= expected_hash@);
    true
}

/// The text under which a server prints a certificate hash: padded URL-safe
/// Base64.
pub fn encode_certificate_hash(hash: &[u8]) -> (r: String)
    requires
        hash@.len() <= 0x1000_0000,
    ensures
        r@ == base64_url_encoding(hash@),
        base64_url_decoding(r@) == Some(hash@),
{
    let r = base64_url_encode(hash);
    proof {
        lemma_base64_url_decoding_of_encoding(hash@);
    }
    r
}

/// The certificate hash that a client is given as text. `None` when the text is not
/// padded URL-safe Base64.
pub fn decode_certificate_hash(text: &str) -> (r: Option<Vec<u8>>)
    ensures
        r is Some <==> base64_url_decoding(text@) is Some,
        r matches Some(h) ==> base64_url_decoding(text@) == Some(h@),
{
    let r = base64_url_decode(text);
    proof {
        if r is Some {
            lemma_base64_url_decoding_of_encoding(r->0@);
        }
    }
    r
}

/// A client given the text that the server printed for the hash of its certificate
/// decodes it to a hash that accepts that certificate.
pub proof fn lemma_printed_hash_accepts_certificate(
    certificate: Seq<u8>,
    hash: Seq<u8>,
    printed: Seq<char>,
)
    requires
        hash == sha256(certificate),
        base64_url_decoding(printed) == Some(hash),
    ensures
        base64_url_decoding(printed) matches Some(expected) && spec_certificate_matches(
            expected,
            certificate,
        ),
{
}

} // verus!
