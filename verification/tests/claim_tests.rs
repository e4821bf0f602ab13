use controller_claim::claim::{evaluate_claim, ClaimIntegrityFailure};
use controller_claim::hashing::{bytes_eq, hash_did};
use sha2::{Digest, Sha256};

fn sha256_bytes(text: &str) -> Vec<u8> {
    let mut hasher = Sha256::new();
    hasher.update(text.as_bytes());
    hasher.finalize().to_vec()
}

#[test]
fn hash_did_matches_sha256() {
    let digest = hash_did("did:example:agent1");
    assert_eq!(digest, sha256_bytes("did:example:agent1"));
    assert_eq!(digest.len(), 32);
    // Known SHA-256 of the empty string: the wrapper must not echo its input.
    let empty = hash_did("");
    assert_eq!(
        hex::encode(&empty),
        "e3b0c44298fc1c149afbf4c8996fb92427ae41e4649b934ca495991b7852b855"
    );
}

#[test]
fn bytes_eq_compares_contents() {
    assert!(bytes_eq(&[1, 2, 3], &[1, 2, 3]));
    assert!(!bytes_eq(&[1, 2, 3], &[1, 2, 4]));
    assert!(!bytes_eq(&[1, 2, 3], &[1, 2]));
    assert!(bytes_eq(&[], &[]));
}

#[test]
fn scenario_valid_controller_not_expired() {
    let expected = sha256_bytes("did:example:agent1");
    let claim = evaluate_claim(
        "did:example:agent1",
        "did:example:ctrl1",
        &[0xde, 0xad],
        1700000000,
        1700000000,
        &expected,
    )
    .unwrap();
    assert!(claim.has_valid_controller);
    assert!(!claim.is_expired);
    assert_eq!(claim.agent_did_hash, sha256_bytes("did:example:agent1"));
    assert_eq!(
        claim.controller_commitment,
        sha256_bytes("did:example:ctrl1")
    );
    assert_eq!(claim.credential_timestamp, 1700000000);
}

#[test]
fn scenario_expired_credential() {
    let expected = sha256_bytes("did:example:agent1");
    let claim = evaluate_claim(
        "did:example:agent1",
        "did:example:ctrl1",
        &[0xde, 0xad],
        1700000000,
        1700000000 + 7776001,
        &expected,
    )
    .unwrap();
    assert!(claim.is_expired);
    assert!(claim.has_valid_controller);
    assert_eq!(claim.agent_did_hash, sha256_bytes("did:example:agent1"));
    assert_eq!(
        claim.controller_commitment,
        sha256_bytes("did:example:ctrl1")
    );
    assert_eq!(claim.credential_timestamp, 1700000000);
}

#[test]
fn scenario_empty_signature_invalid_controller() {
    let expected = sha256_bytes("did:example:agent1");
    let claim = evaluate_claim(
        "did:example:agent1",
        "did:example:ctrl1",
        &[],
        1700000000,
        1700000000,
        &expected,
    )
    .unwrap();
    assert!(!claim.has_valid_controller);
    let late = evaluate_claim(
        "did:example:agent1",
        "did:example:ctrl1",
        &[],
        1700000000,
        1700000000 + 7776001,
        &expected,
    )
    .unwrap();
    assert!(!late.has_valid_controller);
}

#[test]
fn scenario_hash_mismatch_aborts() {
    let mut expected = sha256_bytes("did:example:agent1");
    expected[0] ^= 0xff;
    let result = evaluate_claim(
        "did:example:agent1",
        "did:example:ctrl1",
        &[0xde, 0xad],
        1700000000,
        1700000000,
        &expected,
    );
    assert_eq!(result, Err(ClaimIntegrityFailure));
}

#[test]
fn hash_gate_accepts_exactly_the_matching_hash() {
    for text in ["", "a", "did:example:agent1", "some longer identifier text"] {
        let expected = sha256_bytes(text);
        assert!(evaluate_claim(text, "ctrl", &[1], 0, 0, &expected).is_ok());
        for i in 0..32 {
            let mut wrong = expected.clone();
            wrong[i] = wrong[i].wrapping_add(1);
            assert!(evaluate_claim(text, "ctrl", &[1], 0, 0, &wrong).is_err());
        }
    }
}

#[test]
fn empty_controller_did_invalid() {
    let expected = sha256_bytes("agent");
    let claim = evaluate_claim("agent", "", &[0xde, 0xad], 5, 5, &expected).unwrap();
    assert!(!claim.has_valid_controller);
}

#[test]
fn expiry_boundary_exact() {
    let expected = sha256_bytes("agent");
    let t: u64 = 1700000000;
    let at_boundary = evaluate_claim("agent", "ctrl", &[1], t, t + 7_776_000, &expected).unwrap();
    assert!(!at_boundary.is_expired);
    let past_boundary =
        evaluate_claim("agent", "ctrl", &[1], t, t + 7_776_001, &expected).unwrap();
    assert!(past_boundary.is_expired);
}

#[test]
fn expiry_near_u64_max_does_not_overflow() {
    let expected = sha256_bytes("agent");
    let claim = evaluate_claim("agent", "ctrl", &[1], u64::MAX - 1, u64::MAX, &expected).unwrap();
    assert!(!claim.is_expired);
}
