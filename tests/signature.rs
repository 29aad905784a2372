use ed25519_dalek::{Signer, SigningKey};
use launcher::signature::{
    signing_public_key, verify_binary_signature, verify_binary_signature_with_key,
    VerificationError,
};

const TEST_SEED: [u8; 32] = [1u8; 32];
const TEST_SEED_2: [u8; 32] = [2u8; 32];

fn make_test_keypair(seed: &[u8; 32]) -> (SigningKey, [u8; 32]) {
    let sk = SigningKey::from_bytes(seed);
    let pk = sk.verifying_key().to_bytes();
    (sk, pk)
}

#[test]
fn test_verify_signature_valid() {
    let (sk, pk) = make_test_keypair(&TEST_SEED);
    let binary: &[u8] = b"fake binary content for test";
    let sig = sk.sign(binary);
    assert!(verify_binary_signature_with_key(binary, &sig.to_bytes(), &pk).is_ok());
}

#[test]
fn test_verify_signature_tampered_binary() {
    let (sk, pk) = make_test_keypair(&TEST_SEED);
    let binary: &[u8] = b"original binary content";
    let sig = sk.sign(binary);
    let tampered: &[u8] = b"tampered binary content";
    assert!(verify_binary_signature_with_key(tampered, &sig.to_bytes(), &pk).is_err());
}

#[test]
fn test_verify_signature_wrong_key() {
    let (sk, _pk) = make_test_keypair(&TEST_SEED);
    let (_sk2, wrong_pk) = make_test_keypair(&TEST_SEED_2);
    let binary: &[u8] = b"signed with correct key";
    let sig = sk.sign(binary);
    assert!(verify_binary_signature_with_key(binary, &sig.to_bytes(), &wrong_pk).is_err());
}

#[test]
fn test_verify_signature_truncated_sig() {
    let (_sk, pk) = make_test_keypair(&TEST_SEED);
    let binary: &[u8] = b"some binary content";
    let sig: &[u8] = b"short!!";
    assert!(verify_binary_signature_with_key(binary, sig, &pk).is_err());
}

#[test]
fn wrong_key_is_a_mismatch() {
    let (sk, _pk) = make_test_keypair(&TEST_SEED);
    let (_sk2, wrong_pk) = make_test_keypair(&TEST_SEED_2);
    let binary: &[u8] = b"signed with correct key";
    let sig = sk.sign(binary);
    assert_eq!(
        verify_binary_signature_with_key(binary, &sig.to_bytes(), &wrong_pk),
        Err(VerificationError::SignatureMismatch)
    );
}

#[test]
fn every_single_byte_mutation_is_refused() {
    let (sk, pk) = make_test_keypair(&TEST_SEED);
    let binary: Vec<u8> = b"release artifact".to_vec();
    let sig = sk.sign(&binary).to_bytes();
    for i in 0..binary.len() {
        let mut mutated = binary.clone();
        mutated[i] ^= 0x01;
        assert_eq!(
            verify_binary_signature_with_key(&mutated, &sig, &pk),
            Err(VerificationError::SignatureMismatch)
        );
    }
    assert_eq!(verify_binary_signature_with_key(&binary, &sig, &pk), Ok(()));
}

#[test]
fn signature_of_seven_bytes_is_malformed() {
    // An all-invalid key would be refused too; the length is checked first.
    let key = [0xffu8; 32];
    assert_eq!(
        verify_binary_signature_with_key(b"artifact", b"7 bytes", &key),
        Err(VerificationError::MalformedSignature)
    );
}

#[test]
fn signature_lengths_other_than_64_are_malformed() {
    let (sk, pk) = make_test_keypair(&TEST_SEED);
    let binary: &[u8] = b"content";
    let sig = sk.sign(binary).to_bytes();
    for len in [0usize, 1, 63, 65, 128] {
        let mut s = sig.to_vec();
        s.resize(len, 0);
        assert_eq!(
            verify_binary_signature_with_key(binary, &s, &pk),
            Err(VerificationError::MalformedSignature)
        );
    }
}

#[test]
fn key_that_is_no_curve_point_is_invalid() {
    // About half of all y coordinates have no point on the curve.
    let sig = [0u8; 64];
    let refused = (2u8..40).any(|y| {
        let mut key = [0u8; 32];
        key[0] = y;
        verify_binary_signature_with_key(b"artifact", &sig, &key)
            == Err(VerificationError::InvalidPublicKey)
    });
    assert!(refused);
}

#[test]
fn built_in_anchor_accepts_nothing() {
    let (sk, _pk) = make_test_keypair(&TEST_SEED);
    let binary: &[u8] = b"anything";
    let sig = sk.sign(binary).to_bytes();
    assert!(verify_binary_signature(binary, &sig).is_err());
    assert_eq!(signing_public_key(), [0u8; 32]);
}
