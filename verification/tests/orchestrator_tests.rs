use controller_claim::claim::evaluate_claim;
use controller_claim::orchestrator::{
    advance_session, config_of_args, outcome_usable, prepare_claim_inputs, proof_system_name,
    summarize_public_values, validate_arguments, BackendLocation, InputValidationError,
    ProofSystem, ProverArgs, SessionEvent, SessionMode, SessionPhase,
};
use sha2::{Digest, Sha256};

fn base_args() -> ProverArgs {
    ProverArgs {
        execute: true,
        prove: false,
        proof_system: ProofSystem::Unselected,
        agent_did: "did:example:agent1".to_owned(),
        controller_did: "did:example:ctrl1".to_owned(),
        credential_signature: "dead".to_owned(),
        credential_timestamp: 1700000000,
        current_timestamp: None,
        output_proof: None,
        network: false,
    }
}

#[test]
fn validate_accepts_execute_mode() {
    assert_eq!(validate_arguments(&base_args()), Ok(()));
}

#[test]
fn validate_accepts_prove_mode_with_proof_system() {
    let mut args = base_args();
    args.execute = false;
    args.prove = true;
    args.proof_system = ProofSystem::Groth16;
    assert_eq!(validate_arguments(&args), Ok(()));
}

#[test]
fn validate_rejects_mode_conflicts() {
    let mut args = base_args();
    args.prove = true;
    assert_eq!(
        validate_arguments(&args),
        Err("You must specify either --execute or --prove".to_owned())
    );
    args.execute = false;
    args.prove = false;
    assert_eq!(
        validate_arguments(&args),
        Err("You must specify either --execute or --prove".to_owned())
    );
}

#[test]
fn validate_rejects_empty_identifiers() {
    let mut args = base_args();
    args.agent_did = String::new();
    assert_eq!(
        validate_arguments(&args),
        Err("You must provide an agent DID with --agent-did".to_owned())
    );
    let mut args = base_args();
    args.controller_did = String::new();
    assert_eq!(
        validate_arguments(&args),
        Err("You must provide a controller DID with --controller-did".to_owned())
    );
}

#[test]
fn validate_rejects_proving_without_proof_system() {
    let mut args = base_args();
    args.execute = false;
    args.prove = true;
    assert_eq!(
        validate_arguments(&args),
        Err("You must specify a proof system when using --prove".to_owned())
    );
}

#[test]
fn config_reflects_mode_and_backend() {
    let config = config_of_args(&base_args());
    assert_eq!(config.mode, SessionMode::ExecuteOnly);
    assert_eq!(config.backend, BackendLocation::Local);
    let mut args = base_args();
    args.execute = false;
    args.prove = true;
    args.proof_system = ProofSystem::Plonk;
    args.network = true;
    let config = config_of_args(&args);
    assert_eq!(config.mode, SessionMode::Prove(ProofSystem::Plonk));
    assert_eq!(config.backend, BackendLocation::Network);
}

#[test]
fn prepare_decodes_hex_and_hashes_agent() {
    let inputs = prepare_claim_inputs(
        "did:example:agent1".to_owned(),
        "did:example:ctrl1".to_owned(),
        "dead",
        1700000000,
        1700000005,
    )
    .unwrap();
    assert_eq!(inputs.credential_signature, vec![0xde, 0xad]);
    let mut hasher = Sha256::new();
    hasher.update("did:example:agent1".as_bytes());
    assert_eq!(inputs.expected_agent_did_hash, hasher.finalize().to_vec());
    assert_eq!(inputs.agent_did, "did:example:agent1");
    assert_eq!(inputs.controller_did, "did:example:ctrl1");
    assert_eq!(inputs.credential_timestamp, 1700000000);
    assert_eq!(inputs.current_timestamp, 1700000005);
}

#[test]
fn prepare_accepts_upper_case_and_empty_hex() {
    let inputs = prepare_claim_inputs("a".to_owned(), "c".to_owned(), "DEAD", 0, 0).unwrap();
    assert_eq!(inputs.credential_signature, vec![0xde, 0xad]);
    let inputs = prepare_claim_inputs("a".to_owned(), "c".to_owned(), "", 0, 0).unwrap();
    assert!(inputs.credential_signature.is_empty());
}

#[test]
fn prepare_rejects_malformed_hex() {
    assert_eq!(
        prepare_claim_inputs("a".to_owned(), "c".to_owned(), "abc", 0, 0),
        Err(InputValidationError::MalformedSignatureHex)
    );
    assert_eq!(
        prepare_claim_inputs("a".to_owned(), "c".to_owned(), "zz", 0, 0),
        Err(InputValidationError::MalformedSignatureHex)
    );
}

#[test]
fn prepared_inputs_pass_the_hash_gate() {
    let inputs = prepare_claim_inputs(
        "did:example:agent1".to_owned(),
        "did:example:ctrl1".to_owned(),
        "dead",
        1700000000,
        1700000000,
    )
    .unwrap();
    let claim = evaluate_claim(
        &inputs.agent_did,
        &inputs.controller_did,
        &inputs.credential_signature,
        inputs.credential_timestamp,
        inputs.current_timestamp,
        &inputs.expected_agent_did_hash,
    )
    .unwrap();
    assert!(claim.has_valid_controller);
}

#[test]
fn summary_reports_lowercase_hex() {
    let expected = {
        let mut hasher = Sha256::new();
        hasher.update("did:example:agent1".as_bytes());
        hasher.finalize().to_vec()
    };
    let claim = evaluate_claim(
        "did:example:agent1",
        "did:example:ctrl1",
        &[0xde, 0xad],
        1700000000,
        1700000000,
        &expected,
    )
    .unwrap();
    let summary = summarize_public_values(&claim);
    assert_eq!(summary.agent_did_hash, hex::encode(&claim.agent_did_hash));
    assert_eq!(
        summary.controller_commitment,
        hex::encode(&claim.controller_commitment)
    );
    // Fixed expected value: SHA-256("did:example:ctrl1"), lowercase hex.
    assert_eq!(summary.controller_commitment.len(), 64);
    assert!(summary
        .controller_commitment
        .chars()
        .all(|c| c.is_ascii_hexdigit() && !c.is_ascii_uppercase()));
    assert!(summary.has_valid_controller);
    assert_eq!(summary.credential_timestamp, 1700000000);
    assert!(!summary.is_expired);
}

#[test]
fn proof_systems_report_lowercase_names() {
    assert_eq!(proof_system_name(ProofSystem::Unselected), "none");
    assert_eq!(proof_system_name(ProofSystem::Plonk), "plonk");
    assert_eq!(proof_system_name(ProofSystem::Groth16), "groth16");
    assert_eq!(proof_system_name(ProofSystem::Compressed), "compressed");
}

#[test]
fn execute_session_reaches_reported() {
    let mode = SessionMode::ExecuteOnly;
    let mut phase = SessionPhase::Idle;
    for event in [
        SessionEvent::InputsAccepted,
        SessionEvent::BackendDispatched,
        SessionEvent::ExecutionCompleted,
    ] {
        phase = advance_session(mode, phase, event).unwrap();
    }
    assert_eq!(phase, SessionPhase::Reported);
    assert!(outcome_usable(mode, phase));
    assert!(!outcome_usable(SessionMode::Prove(ProofSystem::Plonk), phase));
}

#[test]
fn proving_session_reaches_verified() {
    let mode = SessionMode::Prove(ProofSystem::Compressed);
    let mut phase = SessionPhase::Idle;
    for event in [
        SessionEvent::InputsAccepted,
        SessionEvent::BackendDispatched,
        SessionEvent::ProofVerified,
    ] {
        phase = advance_session(mode, phase, event).unwrap();
    }
    assert_eq!(phase, SessionPhase::Verified);
    assert!(outcome_usable(mode, phase));
    assert!(!outcome_usable(SessionMode::ExecuteOnly, phase));
}

#[test]
fn failures_end_the_session() {
    let mode = SessionMode::Prove(ProofSystem::Groth16);
    assert_eq!(
        advance_session(mode, SessionPhase::Idle, SessionEvent::InputsRejected),
        Some(SessionPhase::Failed)
    );
    assert_eq!(
        advance_session(mode, SessionPhase::Proving, SessionEvent::BackendFailed),
        Some(SessionPhase::Failed)
    );
    assert!(!outcome_usable(mode, SessionPhase::Failed));
}

#[test]
fn impossible_events_have_no_transition() {
    let mode = SessionMode::ExecuteOnly;
    assert_eq!(
        advance_session(mode, SessionPhase::Idle, SessionEvent::ProofVerified),
        None
    );
    assert_eq!(
        advance_session(mode, SessionPhase::Reported, SessionEvent::BackendFailed),
        None
    );
    assert_eq!(
        advance_session(mode, SessionPhase::Executing, SessionEvent::ProofVerified),
        None
    );
}
