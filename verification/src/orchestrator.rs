//! The orchestrator's shared contract: argument validation, the session
//! configuration, input preparation for the evaluator, the session state
//! machine, and the structured summary of decoded public values.
//!
//! Both call sites — the interactive tool and the network service — gather
//! inputs, hand them to the external proving backend, decode the disclosed
//! bytes and report a structured result. Everything they must agree on is
//! stated and verified here; only the backend calls themselves and the I/O
//! around them live outside the library.

use vstd::prelude::*;
use crate::claim::ClaimResult;
use crate::hashing::{hash_did, sha256_of};
use crate::hexstr::{
    hex_decode_str, hex_encode_bytes, spec_hex_decoded, spec_hex_encoding, spec_hex_valid,
};

verus! {

/// The proof systems the backend offers, plus the unselected default of the
/// command line.
#[derive(Debug, Clone, Copy, PartialEq, Eq, Structural)]
pub enum ProofSystem {
    Unselected,
    Plonk,
    Groth16,
    Compressed,
}

/// Whether the proving backend runs locally or on a proving network. Chosen
/// once per session and passed in explicitly.
#[derive(Debug, Clone, Copy, PartialEq, Eq, Structural)]
pub enum BackendLocation {
    Local,
    Network,
}

/// The command-line arguments of the interactive tool, as plain values.
#[derive(Debug, Clone)]
pub struct ProverArgs {
    pub execute: bool,
    pub prove: bool,
    pub proof_system: ProofSystem,
    pub agent_did: String,
    pub controller_did: String,
    pub credential_signature: String,
    pub credential_timestamp: u64,
    pub current_timestamp: Option<u64>,
    pub output_proof: Option<String>,
    pub network: bool,
}

/// The argument sets a session may start from: exactly one of the two modes,
/// both identifiers present, and a proof system whenever one is needed.
pub open spec fn args_valid(args: ProverArgs) -> bool {
    args.execute != args.prove && args.agent_did@.len() > 0 && args.controller_did@.len() > 0 && !(
    args.prove && args.proof_system == ProofSystem::Unselected)
}

/// The message reported for an invalid argument set: the first failing check
/// decides.
pub open spec fn validation_message(args: ProverArgs) -> Seq<char> {
    if args.execute == args.prove {
        "You must specify either --execute or --prove"@
    } else if args.agent_did@.len() == 0 {
        "You must provide an agent DID with --agent-did"@
    } else if args.controller_did@.len() == 0 {
        "You must provide a controller DID with --controller-did"@
    } else {
        "You must specify a proof system when using --prove"@
    }
}

/// Checks an argument set before any backend work, and names the first
/// missing or contradictory piece.
pub fn validate_arguments(args: &ProverArgs) -> (result: Result<(), String>)
    ensures
        result is Ok <==> args_valid(*args),
        result matches Err(message) ==> message@ == validation_message(*args),
{
    if args.execute == args.prove {
        return Err("You must specify either --execute or --prove".to_owned());
    }
    if args.agent_did.as_str().is_empty() {
        return Err("You must provide an agent DID with --agent-did".to_owned());
    }
    if args.controller_did.as_str().is_empty() {
        return Err("You must provide a controller DID with --controller-did".to_owned());
    }
    if args.prove && args.proof_system == ProofSystem::Unselected {
        return Err("You must specify a proof system when using --prove".to_owned());
    }
    Ok(())
}

/// The lowercase name under which a proof system is reported.
pub open spec fn spec_proof_system_name(proof_system: ProofSystem) -> Seq<char> {
    match proof_system {
        ProofSystem::Unselected => "none"@,
        ProofSystem::Plonk => "plonk"@,
        ProofSystem::Groth16 => "groth16"@,
        ProofSystem::Compressed => "compressed"@,
    }
}

/// Names a proof system for the structured result both call sites emit.
pub fn proof_system_name(proof_system: ProofSystem) -> (name: String)
    ensures
        name@ == spec_proof_system_name(proof_system),
{
    match proof_system {
        ProofSystem::Unselected => "none".to_owned(),
        ProofSystem::Plonk => "plonk".to_owned(),
        ProofSystem::Groth16 => "groth16".to_owned(),
        ProofSystem::Compressed => "compressed".to_owned(),
    }
}

/// What a session is asked to do: inspect the execution only, or produce a
/// proof artifact with the chosen proof system.
#[derive(Debug, Clone, Copy, PartialEq, Eq, Structural)]
pub enum SessionMode {
    ExecuteOnly,
    Prove(ProofSystem),
}

/// A proving session always carries a concrete proof system.
pub open spec fn mode_wf(mode: SessionMode) -> bool {
    mode matches SessionMode::Prove(ps) ==> ps != ProofSystem::Unselected
}

/// The per-session configuration: the mode and where the backend runs.
#[derive(Debug, Clone, Copy, PartialEq, Eq, Structural)]
pub struct SessionConfig {
    pub mode: SessionMode,
    pub backend: BackendLocation,
}

/// Turns a valid argument set into the session's explicit configuration.
pub fn config_of_args(args: &ProverArgs) -> (config: SessionConfig)
    requires
        args_valid(*args),
    ensures
        config.mode == (if args.execute {
            SessionMode::ExecuteOnly
        } else {
            SessionMode::Prove(args.proof_system)
        }),
        config.backend == (if args.network {
            BackendLocation::Network
        } else {
            BackendLocation::Local
        }),
        mode_wf(config.mode),
{
    SessionConfig {
        mode: if args.execute {
            SessionMode::ExecuteOnly
        } else {
            SessionMode::Prove(args.proof_system)
        },
        backend: if args.network {
            BackendLocation::Network
        } else {
            BackendLocation::Local
        },
    }
}

/// Why a session was refused before any backend work.
#[derive(Debug, Clone, Copy, PartialEq, Eq, Structural)]
pub enum InputValidationError {
    MalformedSignatureHex,
}

/// Everything the evaluator reads, in its fixed order, ready to hand to the
/// backend: the private inputs first, then the public expected hash.
#[derive(Debug, Clone, PartialEq, Eq)]
pub struct ClaimInputs {
    pub agent_did: String,
    pub controller_did: String,
    pub credential_signature: Vec<u8>,
    pub credential_timestamp: u64,
    pub current_timestamp: u64,
    pub expected_agent_did_hash: Vec<u8>,
}

impl ClaimInputs {
    /// The expected hash is a SHA-256 digest: exactly 32 bytes.
    pub open spec fn wf(self) -> bool {
        self.expected_agent_did_hash@.len() == 32
    }
}

/// Assembles the evaluator's inputs: decodes the hex signature and computes
/// the public expected hash with the evaluator's own hash rule.
///
/// Succeeds exactly when the signature text is well-formed hex; nothing else
/// is rejected here.
pub fn prepare_claim_inputs(
    agent_did: String,
    controller_did: String,
    credential_signature_hex: &str,
    credential_timestamp: u64,
    current_timestamp: u64,
) -> (result: Result<ClaimInputs, InputValidationError>)
    ensures
        result is Ok <==> spec_hex_valid(credential_signature_hex@),
        result matches Ok(inputs) ==> inputs.agent_did@ == agent_did@ && inputs.controller_did@
            == controller_did@ && inputs.credential_signature@ == spec_hex_decoded(
            credential_signature_hex@,
        ) && inputs.credential_timestamp == credential_timestamp && inputs.current_timestamp
            == current_timestamp && inputs.expected_agent_did_hash@ == sha256_of(agent_did@)
            && inputs.wf(),
        result matches Err(error) ==> error == InputValidationError::MalformedSignatureHex,
{
    let credential_signature = match hex_decode_str(credential_signature_hex) {
        Some(bytes) => bytes,
        None => {
            return Err(InputValidationError::MalformedSignatureHex);
        },
    };
    let expected_agent_did_hash = hash_did(agent_did.as_str());
    Ok(ClaimInputs {
        agent_did,
        controller_did,
        credential_signature,
        credential_timestamp,
        current_timestamp,
        expected_agent_did_hash,
    })
}

/// The decoded public values as both call sites report them: hashes as
/// lowercase hex text, the flags and the timestamp as they stand.
#[derive(Debug, Clone)]
pub struct PublicValuesSummary {
    pub agent_did_hash: String,
    pub controller_commitment: String,
    pub has_valid_controller: bool,
    pub credential_timestamp: u64,
    pub is_expired: bool,
}

/// Renders a decoded claim result into the reported summary.
pub fn summarize_public_values(claim: &ClaimResult) -> (summary: PublicValuesSummary)
    ensures
        summary.agent_did_hash@ == spec_hex_encoding(claim@.agent_did_hash),
        summary.controller_commitment@ == spec_hex_encoding(claim@.controller_commitment),
        summary.has_valid_controller == claim@.has_valid_controller,
        summary.credential_timestamp == claim@.credential_timestamp,
        summary.is_expired == claim@.is_expired,
{
    PublicValuesSummary {
        agent_did_hash: hex_encode_bytes(claim.agent_did_hash.as_slice()),
        controller_commitment: hex_encode_bytes(claim.controller_commitment.as_slice()),
        has_valid_controller: claim.has_valid_controller,
        credential_timestamp: claim.credential_timestamp,
        is_expired: claim.is_expired,
    }
}

/// Where a session stands.
#[derive(Debug, Clone, Copy, PartialEq, Eq, Structural)]
pub enum SessionPhase {
    Idle,
    InputsGathered,
    Executing,
    Proving,
    Reported,
    Verified,
    Failed,
}

/// What moved it: the outcome of input gathering, of dispatching to the
/// backend, and of the backend's own work. A backend failure covers setup,
/// proving and verification failure alike; none of them is retried.
#[derive(Debug, Clone, Copy, PartialEq, Eq, Structural)]
pub enum SessionEvent {
    InputsAccepted,
    InputsRejected,
    BackendDispatched,
    ExecutionCompleted,
    ProofVerified,
    BackendFailed,
}

/// The session state machine. `None` marks an event that cannot occur in a
/// phase; the terminal phases accept no event at all.
pub open spec fn spec_next_phase(
    mode: SessionMode,
    phase: SessionPhase,
    event: SessionEvent,
) -> Option<SessionPhase> {
    match (phase, event) {
        (SessionPhase::Idle, SessionEvent::InputsAccepted) => Some(SessionPhase::InputsGathered),
        (SessionPhase::Idle, SessionEvent::InputsRejected) => Some(SessionPhase::Failed),
        (SessionPhase::InputsGathered, SessionEvent::BackendDispatched) => Some(
            if mode is ExecuteOnly {
                SessionPhase::Executing
            } else {
                SessionPhase::Proving
            },
        ),
        (SessionPhase::Executing, SessionEvent::ExecutionCompleted) => Some(SessionPhase::Reported),
        (SessionPhase::Executing, SessionEvent::BackendFailed) => Some(SessionPhase::Failed),
        (SessionPhase::Proving, SessionEvent::ProofVerified) => Some(SessionPhase::Verified),
        (SessionPhase::Proving, SessionEvent::BackendFailed) => Some(SessionPhase::Failed),
        _ => None,
    }
}

/// Advances a session by one event.
pub fn advance_session(mode: SessionMode, phase: SessionPhase, event: SessionEvent) -> (next:
    Option<SessionPhase>)
    ensures
        next == spec_next_phase(mode, phase, event),
{
    match (phase, event) {
        (SessionPhase::Idle, SessionEvent::InputsAccepted) => Some(SessionPhase::InputsGathered),
        (SessionPhase::Idle, SessionEvent::InputsRejected) => Some(SessionPhase::Failed),
        (SessionPhase::InputsGathered, SessionEvent::BackendDispatched) => Some(
            if matches!(mode, SessionMode::ExecuteOnly) {
                SessionPhase::Executing
            } else {
                SessionPhase::Proving
            },
        ),
        (SessionPhase::Executing, SessionEvent::ExecutionCompleted) => Some(SessionPhase::Reported),
        (SessionPhase::Executing, SessionEvent::BackendFailed) => Some(SessionPhase::Failed),
        (SessionPhase::Proving, SessionEvent::ProofVerified) => Some(SessionPhase::Verified),
        (SessionPhase::Proving, SessionEvent::BackendFailed) => Some(SessionPhase::Failed),
        _ => None,
    }
}

/// The phases a session in a given mode can stand in: an execution-only
/// session never proves or verifies, a proving session never takes the
/// execution-only exit.
pub open spec fn phase_allowed(mode: SessionMode, phase: SessionPhase) -> bool {
    match phase {
        SessionPhase::Executing => mode is ExecuteOnly,
        SessionPhase::Reported => mode is ExecuteOnly,
        SessionPhase::Proving => mode is Prove,
        SessionPhase::Verified => mode is Prove,
        _ => true,
    }
}

/// Mode-separation law: from an allowed phase, every transition leads to an
/// allowed phase. With `Idle` allowed in both modes, an execution-only
/// session can therefore end only at `Reported` or `Failed`, and a proving
/// session only at `Verified` or `Failed`.
pub proof fn lemma_phase_separation(mode: SessionMode, phase: SessionPhase, event: SessionEvent)
    requires
        phase_allowed(mode, phase),
    ensures
        spec_next_phase(mode, phase, event) matches Some(next) ==> phase_allowed(mode, next),
{
}

/// When a session's outcome may be used: an execution-only session must have
/// reported, and a proving session must have verified its artifact.
pub open spec fn spec_outcome_usable(mode: SessionMode, phase: SessionPhase) -> bool {
    (mode is ExecuteOnly && phase is Reported) || (mode is Prove && phase is Verified)
}

/// Decides whether a finished session's outcome may be handed to the caller.
pub fn outcome_usable(mode: SessionMode, phase: SessionPhase) -> (usable: bool)
    ensures
        usable == spec_outcome_usable(mode, phase),
{
    match (mode, phase) {
        (SessionMode::ExecuteOnly, SessionPhase::Reported) => true,
        (SessionMode::Prove(_), SessionPhase::Verified) => true,
        _ => false,
    }
}

} // verus!
