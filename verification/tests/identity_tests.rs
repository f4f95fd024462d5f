use sha2::Digest;
use streamcore::identity::{
    cert_validity_window, get_webtransport_certificate_hash_sha256, needs_regeneration,
};

#[test]
fn regeneration_decision() {
    assert!(!needs_regeneration(true, true, Some("2")));
    assert!(needs_regeneration(false, true, Some("2")));
    assert!(needs_regeneration(true, false, Some("2")));
    assert!(needs_regeneration(true, true, None));
    assert!(needs_regeneration(true, true, Some("1")));
    assert!(needs_regeneration(true, true, Some("2\n")));
}

#[test]
fn validity_window_is_within_fourteen_days() {
    let now = 1_700_000_000u64;
    let (not_before, not_after) = cert_validity_window(now);
    assert_eq!(not_before, now - 3600);
    assert_eq!(not_after, not_before + 13 * 86400);
    assert!(not_after - not_before <= 14 * 86400);
}

#[test]
fn certificate_fingerprint_matches_der_digest() {
    let params = rcgen::CertificateParams::new(vec!["localhost".to_string()]).unwrap();
    let key = rcgen::KeyPair::generate_for(&rcgen::PKCS_ECDSA_P256_SHA256).unwrap();
    let cert = params.self_signed(&key).unwrap();
    let pem = cert.pem();
    let der = cert.der().as_ref().to_vec();

    let expected: Vec<u8> = sha2::Sha256::digest(&der).to_vec();
    let got = get_webtransport_certificate_hash_sha256(pem.as_bytes()).unwrap();
    assert_eq!(got.len(), 32);
    assert_eq!(got, expected);
}

#[test]
fn malformed_pem_has_no_fingerprint() {
    assert_eq!(get_webtransport_certificate_hash_sha256(b""), None);
    assert_eq!(get_webtransport_certificate_hash_sha256(b"not a pem document"), None);
}
