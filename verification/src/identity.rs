//! The server's TLS identity: the decision when the short-lived certificate
//! must be regenerated, its validity window, and the SHA-256 fingerprint of
//! its DER encoding that QUIC-pinning clients check. Reading and writing the
//! certificate files, and the key generation itself, happen outside the
//! library.

use vstd::prelude::*;

use crate::text::str_eq;

verus! {

/// The marker content that identifies the current certificate layout.
pub const REQUIRED_CERT_VERSION: &'static str = "2";

/// How many seconds before now the certificate's validity starts.
pub const CERT_BACKDATE_SECS: u64 = 3600;

/// How many days the certificate lives; pinning clients accept at most
/// fourteen.
pub const CERT_LIFETIME_DAYS: u64 = 13;

/// Whether the on-disk identity must be regenerated: missing certificate or
/// key, a missing version marker, or a marker naming another version.
pub fn needs_regeneration(cert_exists: bool, key_exists: bool, marker: Option<&str>) -> (r: bool)
    ensures
        r == !(cert_exists && key_exists && (match marker {
            Some(m) => m@ == REQUIRED_CERT_VERSION@,
            None => false,
        })),
{
    if !cert_exists || !key_exists {
        return true;
    }
    match marker {
        Some(m) => !str_eq(m, REQUIRED_CERT_VERSION),
        None => true,
    }
}

/// The validity window of a fresh certificate, from the current time in
/// seconds: backdated one hour against clock skew, and ending thirteen days
/// after that, within the fourteen-day bound pinning clients demand.
pub fn cert_validity_window(now_secs: u64) -> (r: (u64, u64))
    requires
        now_secs >= CERT_BACKDATE_SECS,
        now_secs + CERT_LIFETIME_DAYS * 86400 <= u64::MAX,
    ensures
        r.0 == now_secs - CERT_BACKDATE_SECS,
        r.1 == r.0 + CERT_LIFETIME_DAYS * 86400,
        r.1 - r.0 <= 14 * 86400,
{
    let not_before = now_secs - CERT_BACKDATE_SECS;
    let not_after = not_before + CERT_LIFETIME_DAYS * 86400;
    (not_before, not_after)
}

/// The SHA-256 digest of a byte string.
pub uninterp spec fn sha256_of(data: Seq<u8>) -> Seq<u8>;

/// Relies on sha2's Sha256: the digest is a function of the input bytes
/// alone and is 32 bytes long.
#[verifier::external_body]
fn sha256_digest(data: &[u8]) -> (r: Vec<u8>)
    ensures
        r@ == sha256_of(data@),
        r@.len() == 32,
{
    let mut hasher = <sha2::Sha256 as sha2::Digest>::new();
    sha2::Digest::update(&mut hasher, data);
    sha2::Digest::finalize(hasher).to_vec()
}

/// The DER certificates a PEM document carries, in order, when every PEM
/// section parses.
pub uninterp spec fn certs_pem_of(pem: Seq<u8>) -> Option<Seq<Seq<u8>>>;

/// Relies on rustls_pemfile::certs: each certificate section of the PEM
/// document is decoded to its DER bytes, in order; a malformed document
/// gives `None`.
#[verifier::external_body]
fn parse_certs_pem(pem: &[u8]) -> (r: Option<Vec<Vec<u8>>>)
    ensures
        (r is None) == (certs_pem_of(pem@) is None),
        r matches Some(certs) ==> certs_pem_of(pem@) == Some(
            certs@.map_values(|c: Vec<u8>| c@),
        ),
{
    let mut reader = std::io::BufReader::new(pem);
    let parsed: Result<Vec<_>, _> = rustls_pemfile::certs(&mut reader).collect();
    match parsed {
        Ok(certs) => Some(certs.into_iter().map(|c| c.as_ref().to_vec()).collect()),
        Err(_) => None,
    }
}

/// The fingerprint pinning clients check: the SHA-256 digest of the first
/// certificate's DER encoding, from the PEM document on disk. `None` when
/// the document is malformed or holds no certificate.
pub fn get_webtransport_certificate_hash_sha256(pem: &[u8]) -> (r: Option<Vec<u8>>)
    ensures
        (match certs_pem_of(pem@) {
            Some(certs) => {
                if certs.len() > 0 {
                    r matches Some(h) && h@ == sha256_of(certs[0]) && h@.len() == 32
                } else {
                    r is None
                }
            },
            None => r is None,
        }),
{
    match parse_certs_pem(pem) {
        Some(certs) => {
            if certs.len() > 0 {
                let leaf = &certs[0];
                Some(sha256_digest(leaf.as_slice()))
            } else {
                None
            }
        },
        None => None,
    }
}

} // verus!
