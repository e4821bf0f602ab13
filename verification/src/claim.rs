//! The claim evaluator: from identifiers and a credential to a claim result.

use vstd::prelude::*;
use crate::hashing::{bytes_eq, hash_did, sha256_of};

verus! {

/// How long a credential stays valid, in seconds: 90 days.
pub const EXPIRY_PERIOD_SECONDS: u64 = 7776000;

/// The mathematical model of a claim result: what each field is, stated over
/// sequences rather than over the executable containers that carry them.
#[verifier::ext_equal]
pub struct ClaimModel {
    pub agent_did_hash: Seq<u8>,
    pub controller_commitment: Seq<u8>,
    pub has_valid_controller: bool,
    pub credential_timestamp: u64,
    pub is_expired: bool,
}

impl ClaimModel {
    /// Both hashes are SHA-256 digests, so exactly 32 bytes each.
    pub open spec fn wf(self) -> bool {
        self.agent_did_hash.len() == 32 && self.controller_commitment.len() == 32
    }
}

/// The claim result disclosed by the evaluator. Immutable once constructed.
#[derive(Debug, Clone, PartialEq, Eq)]
pub struct ClaimResult {
    pub agent_did_hash: Vec<u8>,
    pub controller_commitment: Vec<u8>,
    pub has_valid_controller: bool,
    pub credential_timestamp: u64,
    pub is_expired: bool,
}

impl View for ClaimResult {
    type V = ClaimModel;

    open spec fn view(&self) -> ClaimModel {
        ClaimModel {
            agent_did_hash: self.agent_did_hash@,
            controller_commitment: self.controller_commitment@,
            has_valid_controller: self.has_valid_controller,
            credential_timestamp: self.credential_timestamp,
            is_expired: self.is_expired,
        }
    }
}

/// A controller is accepted when both the credential signature and the
/// controller identifier are non-empty. This stands in for a real signature
/// check, which the system deliberately leaves to a later capability.
pub open spec fn spec_has_valid_controller(
    credential_signature: Seq<u8>,
    controller_did: Seq<char>,
) -> bool {
    credential_signature.len() > 0 && controller_did.len() > 0
}

/// A credential is expired strictly after 90 days: equality at the boundary
/// is not expired.
pub open spec fn spec_is_expired(credential_timestamp: u64, current_timestamp: u64) -> bool {
    current_timestamp > credential_timestamp + EXPIRY_PERIOD_SECONDS
}

/// The claim result that a given input tuple determines.
pub open spec fn claim_of(
    agent_did: Seq<char>,
    controller_did: Seq<char>,
    credential_signature: Seq<u8>,
    credential_timestamp: u64,
    current_timestamp: u64,
) -> ClaimModel {
    ClaimModel {
        agent_did_hash: sha256_of(agent_did),
        controller_commitment: sha256_of(controller_did),
        has_valid_controller: spec_has_valid_controller(credential_signature, controller_did),
        credential_timestamp: credential_timestamp,
        is_expired: spec_is_expired(credential_timestamp, current_timestamp),
    }
}

/// The one failure the evaluator knows: the claimed agent identifier does not
/// hash to the publicly expected value. It ends the whole session.
#[derive(Debug, Clone, Copy, PartialEq, Eq, Structural)]
pub struct ClaimIntegrityFailure;

/// Derives a claim result from the session's inputs.
///
/// Succeeds exactly when the agent identifier hashes to the publicly supplied
/// expected value; on success every field of the result is the one
/// `claim_of` assigns to these inputs.
pub fn evaluate_claim(
    agent_did: &str,
    controller_did: &str,
    credential_signature: &[u8],
    credential_timestamp: u64,
    current_timestamp: u64,
    expected_agent_did_hash: &[u8],
) -> (result: Result<ClaimResult, ClaimIntegrityFailure>)
    requires
        expected_agent_did_hash@.len() == 32,
    ensures
        result is Ok <==> sha256_of(agent_did@) == expected_agent_did_hash@,
        result matches Ok(claim) ==> claim@ == claim_of(
            agent_did@,
            controller_did@,
            credential_signature@,
            credential_timestamp,
            current_timestamp,
        ),
        result matches Ok(claim) ==> claim@.wf(),
{
    let agent_did_hash = hash_did(agent_did);
    if !bytes_eq(agent_did_hash.as_slice(), expected_agent_did_hash) {
        return Err(ClaimIntegrityFailure);
    }
    let controller_commitment = hash_did(controller_did);
    let has_valid_controller = credential_signature.len() > 0 && !controller_did.is_empty();
    let is_expired = if credential_timestamp > u64::MAX - EXPIRY_PERIOD_SECONDS {
        false
    } else {
        current_timestamp > credential_timestamp + EXPIRY_PERIOD_SECONDS
    };
    Ok(ClaimResult {
        agent_did_hash,
        controller_commitment,
        has_valid_controller,
        credential_timestamp,
        is_expired,
    })
}

/// Expiry boundary law: exactly 90 days after issuance a credential is still
/// valid; one second later it is expired.
pub proof fn lemma_expiry_boundary(credential_timestamp: u64)
    requires
        credential_timestamp + EXPIRY_PERIOD_SECONDS + 1 <= u64::MAX,
    ensures
        !spec_is_expired(
            credential_timestamp,
            (credential_timestamp + EXPIRY_PERIOD_SECONDS) as u64,
        ),
        spec_is_expired(
            credential_timestamp,
            (credential_timestamp + EXPIRY_PERIOD_SECONDS + 1) as u64,
        ),
{
}

/// Controller-validity boundary law: an empty signature or an empty
/// controller identifier refuses the controller; two non-empty values accept
/// it.
pub proof fn lemma_controller_validity(
    credential_signature: Seq<u8>,
    controller_did: Seq<char>,
)
    ensures
        credential_signature.len() == 0 || controller_did.len() == 0 ==> !spec_has_valid_controller(
            credential_signature,
            controller_did,
        ),
        credential_signature.len() > 0 && controller_did.len() > 0 ==> spec_has_valid_controller(
            credential_signature,
            controller_did,
        ),
{
}

/// Determinism law, evaluator half: one input tuple determines one claim
/// result.
pub proof fn lemma_evaluation_deterministic(
    agent_did: Seq<char>,
    controller_did: Seq<char>,
    credential_signature: Seq<u8>,
    credential_timestamp: u64,
    current_timestamp: u64,
    first: ClaimModel,
    second: ClaimModel,
)
    requires
        first == claim_of(
            agent_did,
            controller_did,
            credential_signature,
            credential_timestamp,
            current_timestamp,
        ),
        second == claim_of(
            agent_did,
            controller_did,
            credential_signature,
            credential_timestamp,
            current_timestamp,
        ),
    ensures
        first == second,
{
}

} // verus!
