//! Ed25519 verification of detached signatures against a trust anchor.
use vstd::prelude::*;

verus! {

/// Length of a detached Ed25519 signature, in bytes.
pub const SIGNATURE_LEN: usize = 64;

/// The bytes of the built-in trust anchor: all zero.
pub open spec fn signing_public_key_bytes() -> Seq<u8> {
    Seq::new(32, |i: int| 0u8)
}

/// The key that release artifacts are signed against. All zero bytes: a key
/// of low order, which strict verification refuses, so that a build without a
/// real anchor accepts no artifact at all.
pub fn signing_public_key() -> (r: [u8; 32])
    ensures
        r@ == signing_public_key_bytes(),
{
    let r = [0u8; 32];
    assert(r@ =~= signing_public_key_bytes());
    r
}

#[verifier::external_type_specification]
#[verifier::external_body]
pub struct ExVerifyingKey(ed25519_dalek::VerifyingKey);

/// Whether 32 bytes decode to a point of the curve, as a verifying key.
pub uninterp spec fn ed25519_key_decodes(key: Seq<u8>) -> bool;

/// Whether `sig` is a strictly valid Ed25519 signature of `msg` under `key`.
pub uninterp spec fn ed25519_verifies_strict(key: Seq<u8>, msg: Seq<u8>, sig: Seq<u8>) -> bool;

/// Why a detached signature was refused.
#[derive(Debug, Clone, Copy, PartialEq, Eq, Structural)]
pub enum VerificationError {
    /// The signature is not exactly 64 bytes long.
    MalformedSignature,
    /// The public key bytes are not a valid curve point.
    InvalidPublicKey,
    /// The signature does not verify over the artifact under the key.
    SignatureMismatch,
}

/// A decoded public key, with the bytes it was decoded from.
pub struct TrustAnchor {
    bytes: [u8; 32],
    key: ed25519_dalek::VerifyingKey,
}

impl View for TrustAnchor {
    type V = Seq<u8>;

    closed spec fn view(&self) -> Seq<u8> {
        self.bytes@
    }
}

/// Relies on ed25519_dalek::VerifyingKey::from_bytes: succeeds exactly when the
/// compressed point decompresses.
#[verifier::external_body]
fn decode_trust_anchor(bytes: &[u8; 32]) -> (r: Option<TrustAnchor>)
    ensures
        r is Some <==> ed25519_key_decodes(bytes@),
        r matches Some(a) ==> a@ == bytes@,
{
    match ed25519_dalek::VerifyingKey::from_bytes(bytes) {
        Ok(key) => Some(TrustAnchor { bytes: *bytes, key }),
        Err(_) => None,
    }
}

/// Relies on ed25519_dalek::VerifyingKey::verify_strict, over the signature that
/// ed25519_dalek::Signature::from_slice reads from exactly 64 bytes.
#[verifier::external_body]
fn verify_strict(anchor: &TrustAnchor, msg: &[u8], sig: &[u8]) -> (r: bool)
    requires
        sig@.len() == 64,
    ensures
        r == ed25519_verifies_strict(anchor@, msg@, sig@),
{
    match ed25519_dalek::Signature::from_slice(sig) {
        Ok(s) => anchor.key.verify_strict(msg, &s).is_ok(),
        Err(_) => false,
    }
}

/// The outcome that verification owes for an artifact, a signature and a key.
pub open spec fn verification_outcome(
    artifact: Seq<u8>,
    sig: Seq<u8>,
    key: Seq<u8>,
) -> Result<(), VerificationError> {
    if sig.len() != 64 {
        Err(VerificationError::MalformedSignature)
    } else if !ed25519_key_decodes(key) {
        Err(VerificationError::InvalidPublicKey)
    } else if !ed25519_verifies_strict(key, artifact, sig) {
        Err(VerificationError::SignatureMismatch)
    } else {
        Ok(())
    }
}

/// Verifies a detached signature over the exact bytes of an artifact, under
/// the given public key. The length of the signature is checked before any
/// key is decoded or any curve arithmetic is done.
pub fn verify_binary_signature_with_key(
    binary: &[u8],
    sig: &[u8],
    pub_key_bytes: &[u8; 32],
) -> (r: Result<(), VerificationError>)
    ensures
        r == verification_outcome(binary@, sig@, pub_key_bytes@),
{
    if sig.len() != SIGNATURE_LEN {
        return Err(VerificationError::MalformedSignature);
    }
    let anchor = match decode_trust_anchor(pub_key_bytes) {
        Some(a) => a,
        None => return Err(VerificationError::InvalidPublicKey),
    };
    if verify_strict(&anchor, binary, sig) {
        Ok(())
    } else {
        Err(VerificationError::SignatureMismatch)
    }
}

/// Verifies a detached signature under the built-in trust anchor.
pub fn verify_binary_signature(binary: &[u8], sig: &[u8]) -> (r: Result<(), VerificationError>)
    ensures
        r == verification_outcome(binary@, sig@, signing_public_key_bytes()),
{
    let key = signing_public_key();
    verify_binary_signature_with_key(binary, sig, &key)
}

/// A signature of any length but 64 bytes is refused as malformed, whatever
/// the artifact and the key.
pub proof fn lemma_wrong_length_is_malformed(artifact: Seq<u8>, sig: Seq<u8>, key: Seq<u8>)
    requires
        sig.len() != 64,
    ensures
        verification_outcome(artifact, sig, key) == Err::<(), VerificationError>(
            VerificationError::MalformedSignature,
        ),
{
}

/// Verification succeeds exactly when the signature is 64 bytes, the key
/// decodes, and the signature verifies strictly over the artifact's exact bytes.
pub proof fn lemma_success_is_strict_verification(artifact: Seq<u8>, sig: Seq<u8>, key: Seq<u8>)
    ensures
        verification_outcome(artifact, sig, key) is Ok <==> (sig.len() == 64 && ed25519_key_decodes(
            key,
        ) && ed25519_verifies_strict(key, artifact, sig)),
{
}

} // verus!
