use siffleux::certificate::{
    certificate_matches, decode_certificate_hash, encode_certificate_hash,
    generate_self_signed_certificate, hash_certificate,
};

#[test]
fn sha256_of_known_input() {
    let h = hash_certificate(b"abc");
    assert_eq!(
        h,
        vec![
            0xba, 0x78, 0x16, 0xbf, 0x8f, 0x01, 0xcf, 0xea, 0x41, 0x41, 0x40, 0xde, 0x5d, 0xae,
            0x22, 0x23, 0xb0, 0x03, 0x61, 0xa3, 0x96, 0x17, 0x7a, 0x9c, 0xb4, 0x10, 0xff, 0x61,
            0xf2, 0x00, 0x15, 0xad
        ]
    );
}

#[test]
fn certificate_matches_only_its_hash() {
    let cert = b"certificate bytes";
    let hash = hash_certificate(cert);
    assert!(certificate_matches(&hash, cert));
    assert!(!certificate_matches(&hash, b"another certificate"));
    assert!(!certificate_matches(&hash[..31], cert));
    assert!(!certificate_matches(&[], cert));
}

#[test]
fn printed_hash_text_decodes_to_the_hash() {
    let hash = hash_certificate(b"abc");
    let text = encode_certificate_hash(&hash);
    assert_eq!(text, "ungWv48Bz-pBQUDeXa4iI7ADYaOWF3qctBD_YfIAFa0=");
    assert_eq!(decode_certificate_hash(&text), Some(hash.clone()));
    assert!(certificate_matches(&decode_certificate_hash(&text).unwrap(), b"abc"));
    assert_eq!(decode_certificate_hash("not base64!"), None);
    assert_eq!(encode_certificate_hash(&[0xfb, 0xff]), "-_8=");
}

#[test]
fn generated_certificate_carries_its_hash() {
    let c = generate_self_signed_certificate("self-host.siffleux.dev").unwrap();
    assert_eq!(c.cert_hash, hash_certificate(&c.cert_der));
    assert!(c.cert_pem.starts_with("-----BEGIN CERTIFICATE-----"));
    assert!(c.key_pem.contains("PRIVATE KEY"));
    assert!(!c.key_der.is_empty());
    assert!(certificate_matches(&c.cert_hash, &c.cert_der));
}
