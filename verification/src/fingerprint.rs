//! Peer authentication by certificate fingerprint: the SHA-1 digest of
//! the peer's leaf certificate, rendered as lowercase hex and compared
//! byte for byte against the configured pin.

use vstd::prelude::*;
use vstd::string::StringSliceAdditionalSpecFns;

use sha1::Digest;
use sha1::Sha1;

use crate::text::eq_bytes;

verus! {

/// The SHA-1 digest of a byte sequence; a function of the bytes alone.
pub uninterp spec fn sha1_of(data: Seq<u8>) -> Seq<u8>;

/// Relies on sha1::Sha1 through the Digest trait: the SHA-1 digest of
/// the input, 20 bytes, depending on the input bytes alone.
#[verifier::external_body]
fn sha1_digest(data: &[u8]) -> (r: Vec<u8>)
    ensures
        r@ == sha1_of(data@),
        r@.len() == 20,
{
    Sha1::digest(data).to_vec()
}

/// The lowercase hex digit for a value below sixteen.
pub open spec fn hex_digit(v: u8) -> u8
    recommends
        v < 16,
{
    if v < 10 {
        (0x30 + v) as u8
    } else {
        (0x57 + v) as u8
    }
}

/// The lowercase hex rendering of a byte sequence: two digits per byte,
/// high nibble first.
pub open spec fn hex_bytes(data: Seq<u8>) -> Seq<u8> {
    Seq::new(
        data.len() * 2,
        |i: int|
            if i % 2 == 0 {
                hex_digit(data[i / 2] / 16)
            } else {
                hex_digit(data[i / 2] % 16)
            },
    )
}

pub fn hex_lower(data: &[u8]) -> (r: Vec<u8>)
    ensures
        r@ == hex_bytes(data@),
{
    let mut r: Vec<u8> = Vec::new();
    let mut i: usize = 0;
    while i < data.len()
        invariant
            i <= data.len(),
            r@ == hex_bytes(data@.take(i as int)),
        decreases data.len() - i,
    {
        let b = data[i];
        let hi = b / 16;
        let lo = b % 16;
        r.push(if hi < 10 {
            0x30 + hi
        } else {
            0x57 + hi
        });
        r.push(if lo < 10 {
            0x30 + lo
        } else {
            0x57 + lo
        });
        proof {
            assert(r@ =~= hex_bytes(data@.take(i as int + 1)));
        }
        i += 1;
    }
    proof {
        assert(data@.take(data@.len() as int) =~= data@);
    }
    r
}

/// The certificate's fingerprint as the configured pin must spell it:
/// the SHA-1 digest of the raw certificate bytes in lowercase hex.
pub open spec fn fingerprint_spec(cert: Seq<u8>) -> Seq<u8> {
    hex_bytes(sha1_of(cert))
}

/// Computes the lowercase-hex SHA-1 fingerprint of a raw certificate.
pub fn fingerprint_of(cert: &[u8]) -> (r: Vec<u8>)
    ensures
        r@ == fingerprint_spec(cert@),
        r@.len() == 40,
{
    let digest = sha1_digest(cert);
    hex_lower(digest.as_slice())
}

/// Whether a certificate's fingerprint equals the pinned value, byte for
/// byte; any case or byte difference fails.
pub open spec fn fingerprint_matches(cert: Seq<u8>, pinned: Seq<u8>) -> bool {
    fingerprint_spec(cert) == pinned
}

pub fn check_fingerprint(cert: &[u8], pinned: &str) -> (r: bool)
    ensures
        r == fingerprint_matches(cert@, pinned.spec_bytes()),
{
    let fp = fingerprint_of(cert);
    eq_bytes(fp.as_slice(), pinned.as_bytes())
}

/// The outcome of authenticating one accepted peer.
pub enum AuthOutcome {
    /// The peer presented a certificate whose fingerprint equals the pin;
    /// the session may proceed.
    Accepted,
    /// The handshake yielded no peer certificate; rejected before any
    /// digest is computed.
    NoPeerCertificate,
    /// The leaf certificate's fingerprint differs from the pin; the
    /// computed fingerprint is carried for the operator's diagnosis.
    FingerprintMismatch(Vec<u8>),
}

/// Decides whether an accepted peer may observe the relay: the session
/// proceeds exactly when a certificate chain was presented and the leaf
/// certificate's lowercase-hex SHA-1 digest equals the pinned value.
pub fn authenticate_peer(peer_certs: &Option<Vec<Vec<u8>>>, pinned: &str) -> (r: AuthOutcome)
    ensures
        r is Accepted <==> (peer_certs matches Some(cs) && cs@.len() > 0 && fingerprint_matches(
            cs@[0]@,
            pinned.spec_bytes(),
        )),
        r is NoPeerCertificate <==> (peer_certs is None || (peer_certs matches Some(cs)
            && cs@.len() == 0)),
        r matches AuthOutcome::FingerprintMismatch(fp) ==> (peer_certs matches Some(cs)
            && cs@.len() > 0 && !fingerprint_matches(cs@[0]@, pinned.spec_bytes()) && fp@
            == fingerprint_spec(cs@[0]@)),
{
    match peer_certs {
        None => AuthOutcome::NoPeerCertificate,
        Some(certs) => {
            if certs.len() == 0 {
                AuthOutcome::NoPeerCertificate
            } else {
                let leaf = &certs[0];
                let fp = fingerprint_of(leaf.as_slice());
                if eq_bytes(fp.as_slice(), pinned.as_bytes()) {
                    AuthOutcome::Accepted
                } else {
                    AuthOutcome::FingerprintMismatch(fp)
                }
            }
        },
    }
}

} // verus!
