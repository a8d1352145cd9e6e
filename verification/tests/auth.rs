use haematite::fingerprint::{authenticate_peer, check_fingerprint, fingerprint_of, hex_lower, AuthOutcome};
use sha1::Digest;
use sha1::Sha1;

#[test]
fn hex_lower_empty() {
    assert_eq!(hex_lower(&[]), b"");
}

#[test]
fn hex_lower_digits() {
    assert_eq!(hex_lower(&[0x00, 0x0f, 0xa5, 0xff]), b"000fa5ff");
}

#[test]
fn fingerprint_known_value() {
    // SHA-1 of "abc", a published reference value.
    assert_eq!(
        fingerprint_of(b"abc"),
        b"a9993e364706816aba3e25717850c26c9cd0d89d"
    );
}

#[test]
fn fingerprint_matches_oracle() {
    let cert = b"not really a certificate, but any bytes will do";
    let expected = hex::encode(Sha1::digest(cert));
    assert_eq!(fingerprint_of(cert), expected.as_bytes());
}

#[test]
fn check_fingerprint_exact_match() {
    let cert = b"peer leaf certificate bytes";
    let pin = hex::encode(Sha1::digest(cert));
    assert!(check_fingerprint(cert, &pin));
}

#[test]
fn check_fingerprint_rejects_case_difference() {
    let cert = b"peer leaf certificate bytes";
    let pin = hex::encode(Sha1::digest(cert)).to_uppercase();
    assert!(!check_fingerprint(cert, &pin));
}

#[test]
fn check_fingerprint_rejects_other_value() {
    let cert = b"peer leaf certificate bytes";
    assert!(!check_fingerprint(
        cert,
        "a9993e364706816aba3e25717850c26c9cd0d89d"
    ));
}

#[test]
fn authenticate_accepts_matching_peer() {
    let cert = b"the observer's certificate".to_vec();
    let pin = hex::encode(Sha1::digest(&cert));
    let r = authenticate_peer(&Some(vec![cert]), &pin);
    assert!(matches!(r, AuthOutcome::Accepted));
}

#[test]
fn authenticate_uses_leaf_certificate_only() {
    let leaf = b"leaf".to_vec();
    let issuer = b"issuer".to_vec();
    let pin = hex::encode(Sha1::digest(&leaf));
    let r = authenticate_peer(&Some(vec![leaf, issuer]), &pin);
    assert!(matches!(r, AuthOutcome::Accepted));
}

#[test]
fn authenticate_rejects_one_digit_off() {
    let cert = b"the observer's certificate".to_vec();
    let mut pin = hex::encode(Sha1::digest(&cert)).into_bytes();
    pin[0] = if pin[0] == b'0' { b'1' } else { b'0' };
    let pin = String::from_utf8(pin).unwrap();
    let r = authenticate_peer(&Some(vec![cert.clone()]), &pin);
    match r {
        AuthOutcome::FingerprintMismatch(observed) => {
            assert_eq!(observed, hex::encode(Sha1::digest(&cert)).into_bytes());
        }
        _ => panic!("expected a fingerprint mismatch"),
    }
}

#[test]
fn authenticate_rejects_missing_chain() {
    let r = authenticate_peer(&None, "a9993e364706816aba3e25717850c26c9cd0d89d");
    assert!(matches!(r, AuthOutcome::NoPeerCertificate));
}

#[test]
fn authenticate_rejects_empty_chain() {
    let r = authenticate_peer(&Some(vec![]), "a9993e364706816aba3e25717850c26c9cd0d89d");
    assert!(matches!(r, AuthOutcome::NoPeerCertificate));
}
