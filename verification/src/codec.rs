//! The public-value codec: the canonical 160-byte layout of a claim result,
//! its encoder, its defensive decoder, and the laws that tie them together.
//!
//! Three consumers must agree byte for byte on this layout; every offset is
//! therefore fixed here once, in `encoded_byte`. Each field occupies one
//! 32-byte slot: a hash fills its slot, a boolean sits in the slot's last
//! byte as 0x01 or 0x00, and the 64-bit timestamp sits big-endian in the
//! slot's last eight bytes. Everything else is zero.

use vstd::prelude::*;
use crate::claim::{claim_of, ClaimModel, ClaimResult};

verus! {

/// An encoded claim result is always exactly this long.
pub const ENCODED_CLAIM_LEN: usize = 160;

/// How a boolean is stored in its slot's final byte.
pub open spec fn spec_bool_byte(b: bool) -> u8 {
    if b {
        1
    } else {
        0
    }
}

/// Byte `j` (big-endian, `0 <= j < 8`) of a 64-bit value.
pub open spec fn spec_be_byte(v: u64, j: int) -> u8 {
    if j == 0 {
        ((v >> 56) & 0xff) as u8
    } else if j == 1 {
        ((v >> 48) & 0xff) as u8
    } else if j == 2 {
        ((v >> 40) & 0xff) as u8
    } else if j == 3 {
        ((v >> 32) & 0xff) as u8
    } else if j == 4 {
        ((v >> 24) & 0xff) as u8
    } else if j == 5 {
        ((v >> 16) & 0xff) as u8
    } else if j == 6 {
        ((v >> 8) & 0xff) as u8
    } else {
        (v & 0xff) as u8
    }
}

/// The 64-bit value read big-endian from an 8-byte sequence.
pub open spec fn spec_be_u64(b: Seq<u8>) -> u64
    recommends
        b.len() == 8,
{
    ((b[0] as u64) << 56) | ((b[1] as u64) << 48) | ((b[2] as u64) << 40) | ((b[3] as u64) << 32)
        | ((b[4] as u64) << 24) | ((b[5] as u64) << 16) | ((b[6] as u64) << 8) | (b[7] as u64)
}

/// Byte `i` of the canonical encoding of a claim result.
pub open spec fn encoded_byte(m: ClaimModel, i: int) -> u8
    recommends
        m.wf(),
        0 <= i < 160,
{
    if 0 <= i < 32 {
        m.agent_did_hash[i]
    } else if 32 <= i < 64 {
        m.controller_commitment[i - 32]
    } else if i == 95 {
        spec_bool_byte(m.has_valid_controller)
    } else if 120 <= i < 128 {
        spec_be_byte(m.credential_timestamp, i - 120)
    } else if i == 159 {
        spec_bool_byte(m.is_expired)
    } else {
        0
    }
}

/// The canonical encoding of a claim result: 160 bytes, each fixed by
/// `encoded_byte`.
pub open spec fn spec_encode(m: ClaimModel) -> Seq<u8> {
    Seq::new(160, |i: int| encoded_byte(m, i))
}

/// The inputs the decoder accepts: at least 160 bytes, and both boolean
/// slots carrying 0x00 or 0x01 in their final byte.
pub open spec fn can_decode(s: Seq<u8>) -> bool {
    s.len() >= 160 && (s[95] == 0 || s[95] == 1) && (s[159] == 0 || s[159] == 1)
}

/// The claim result read from a decodable byte sequence.
pub open spec fn spec_decode(s: Seq<u8>) -> ClaimModel
    recommends
        can_decode(s),
{
    ClaimModel {
        agent_did_hash: s.subrange(0, 32),
        controller_commitment: s.subrange(32, 64),
        has_valid_controller: s[95] == 1,
        credential_timestamp: spec_be_u64(s.subrange(120, 128)),
        is_expired: s[159] == 1,
    }
}

/// Why a disclosed byte sequence was refused: shorter than 160 bytes, or a
/// boolean slot whose final byte is neither 0x00 nor 0x01.
#[derive(Debug, Clone, Copy, PartialEq, Eq, Structural)]
pub enum DecodingAssumptionViolation {
    Truncated,
    NonBooleanFlagByte,
}

/// Serializes a claim result into its canonical 160-byte form.
pub fn encode_claim(claim: &ClaimResult) -> (out: Vec<u8>)
    requires
        claim@.wf(),
    ensures
        out@ == spec_encode(claim@),
        out@.len() == 160,
{
    let mut out: Vec<u8> = Vec::new();
    let mut i: usize = 0;
    while i < 32
        invariant
            claim@.wf(),
            i <= 32,
            out@.len() == i,
            forall|j: int| 0 <= j < i ==> out@[j] == encoded_byte(claim@, j),
        decreases 32 - i,
    {
        out.push(claim.agent_did_hash[i]);
        i += 1;
    }
    i = 0;
    while i < 32
        invariant
            claim@.wf(),
            i <= 32,
            out@.len() == 32 + i,
            forall|j: int| 0 <= j < 32 + i ==> out@[j] == encoded_byte(claim@, j),
        decreases 32 - i,
    {
        out.push(claim.controller_commitment[i]);
        i += 1;
    }
    while out.len() < 95
        invariant
            64 <= out@.len() <= 95,
            forall|j: int| 0 <= j < out@.len() ==> out@[j] == encoded_byte(claim@, j),
        decreases 95 - out@.len(),
    {
        out.push(0);
    }
    out.push(if claim.has_valid_controller {
        1
    } else {
        0
    });
    while out.len() < 120
        invariant
            96 <= out@.len() <= 120,
            forall|j: int| 0 <= j < out@.len() ==> out@[j] == encoded_byte(claim@, j),
        decreases 120 - out@.len(),
    {
        out.push(0);
    }
    let ts = claim.credential_timestamp;
    out.push(((ts >> 56) & 0xff) as u8);
    out.push(((ts >> 48) & 0xff) as u8);
    out.push(((ts >> 40) & 0xff) as u8);
    out.push(((ts >> 32) & 0xff) as u8);
    out.push(((ts >> 24) & 0xff) as u8);
    out.push(((ts >> 16) & 0xff) as u8);
    out.push(((ts >> 8) & 0xff) as u8);
    out.push((ts & 0xff) as u8);
    while out.len() < 159
        invariant
            128 <= out@.len() <= 159,
            forall|j: int| 0 <= j < out@.len() ==> out@[j] == encoded_byte(claim@, j),
        decreases 159 - out@.len(),
    {
        out.push(0);
    }
    out.push(if claim.is_expired {
        1
    } else {
        0
    });
    assert(out@ =~= spec_encode(claim@));
    out
}

/// Parses a disclosed byte sequence back into a claim result.
///
/// Accepts exactly the sequences `can_decode` allows; a shorter input is
/// refused as truncated rather than read past its end, and a boolean slot
/// holding anything but 0x00 or 0x01 is refused rather than guessed at.
pub fn decode_claim(bytes: &[u8]) -> (result: Result<ClaimResult, DecodingAssumptionViolation>)
    ensures
        result is Ok <==> can_decode(bytes@),
        result matches Ok(claim) ==> claim@ == spec_decode(bytes@),
        result matches Ok(claim) ==> claim@.wf(),
        result matches Err(violation) ==> ((violation == DecodingAssumptionViolation::Truncated)
            <==> bytes@.len() < 160),
{
    if bytes.len() < 160 {
        return Err(DecodingAssumptionViolation::Truncated);
    }
    let valid_byte = bytes[95];
    if valid_byte > 1 {
        return Err(DecodingAssumptionViolation::NonBooleanFlagByte);
    }
    let expired_byte = bytes[159];
    if expired_byte > 1 {
        return Err(DecodingAssumptionViolation::NonBooleanFlagByte);
    }
    let mut agent_did_hash: Vec<u8> = Vec::new();
    let mut i: usize = 0;
    while i < 32
        invariant
            bytes@.len() >= 160,
            i <= 32,
            agent_did_hash@.len() == i,
            forall|j: int| 0 <= j < i ==> agent_did_hash@[j] == bytes@[j],
        decreases 32 - i,
    {
        agent_did_hash.push(bytes[i]);
        i += 1;
    }
    let mut controller_commitment: Vec<u8> = Vec::new();
    i = 0;
    while i < 32
        invariant
            bytes@.len() >= 160,
            i <= 32,
            controller_commitment@.len() == i,
            forall|j: int| 0 <= j < i ==> controller_commitment@[j] == bytes@[32 + j],
        decreases 32 - i,
    {
        controller_commitment.push(bytes[32 + i]);
        i += 1;
    }
    let credential_timestamp = ((bytes[120] as u64) << 56) | ((bytes[121] as u64) << 48)
        | ((bytes[122] as u64) << 40) | ((bytes[123] as u64) << 32) | ((bytes[124] as u64) << 24)
        | ((bytes[125] as u64) << 16) | ((bytes[126] as u64) << 8) | (bytes[127] as u64);
    let claim = ClaimResult {
        agent_did_hash,
        controller_commitment,
        has_valid_controller: valid_byte == 1,
        credential_timestamp,
        is_expired: expired_byte == 1,
    };
    proof {
        assert(claim@.agent_did_hash =~= bytes@.subrange(0, 32));
        assert(claim@.controller_commitment =~= bytes@.subrange(32, 64));
        let ts_slot = bytes@.subrange(120, 128);
        assert(ts_slot[0] == bytes@[120]);
        assert(ts_slot[1] == bytes@[121]);
        assert(ts_slot[2] == bytes@[122]);
        assert(ts_slot[3] == bytes@[123]);
        assert(ts_slot[4] == bytes@[124]);
        assert(ts_slot[5] == bytes@[125]);
        assert(ts_slot[6] == bytes@[126]);
        assert(ts_slot[7] == bytes@[127]);
        assert(claim@ =~= spec_decode(bytes@));
    }
    Ok(claim)
}

/// Round-trip law: decoding the canonical encoding of any well-formed claim
/// result gives that claim result back, and the encoding is always
/// decodable.
pub proof fn lemma_round_trip(m: ClaimModel)
    requires
        m.wf(),
    ensures
        can_decode(spec_encode(m)),
        spec_decode(spec_encode(m)) == m,
{
    let e = spec_encode(m);
    assert(e[95] == spec_bool_byte(m.has_valid_controller));
    assert(e[159] == spec_bool_byte(m.is_expired));
    assert(can_decode(e));
    let d = spec_decode(e);
    assert(d.agent_did_hash =~= m.agent_did_hash);
    assert(d.controller_commitment =~= m.controller_commitment);
    let v = m.credential_timestamp;
    let ts_slot = e.subrange(120, 128);
    assert(ts_slot[0] == ((v >> 56) & 0xff) as u8);
    assert(ts_slot[1] == ((v >> 48) & 0xff) as u8);
    assert(ts_slot[2] == ((v >> 40) & 0xff) as u8);
    assert(ts_slot[3] == ((v >> 32) & 0xff) as u8);
    assert(ts_slot[4] == ((v >> 24) & 0xff) as u8);
    assert(ts_slot[5] == ((v >> 16) & 0xff) as u8);
    assert(ts_slot[6] == ((v >> 8) & 0xff) as u8);
    assert(ts_slot[7] == (v & 0xff) as u8);
    assert(((v >> 56) & 0xff) <= 0xff) by (bit_vector);
    assert(((v >> 48) & 0xff) <= 0xff) by (bit_vector);
    assert(((v >> 40) & 0xff) <= 0xff) by (bit_vector);
    assert(((v >> 32) & 0xff) <= 0xff) by (bit_vector);
    assert(((v >> 24) & 0xff) <= 0xff) by (bit_vector);
    assert(((v >> 16) & 0xff) <= 0xff) by (bit_vector);
    assert(((v >> 8) & 0xff) <= 0xff) by (bit_vector);
    assert((v & 0xff) <= 0xff) by (bit_vector);
    assert((((v >> 56) & 0xff) << 56) | (((v >> 48) & 0xff) << 48) | (((v >> 40) & 0xff) << 40) | ((
    (v >> 32) & 0xff) << 32) | (((v >> 24) & 0xff) << 24) | (((v >> 16) & 0xff) << 16) | (((v >> 8)
        & 0xff) << 8) | (v & 0xff) == v) by (bit_vector);
    assert(spec_be_u64(ts_slot) == v);
    assert(d =~= m);
}

/// Determinism law, codec half: equal claim results have equal encodings, so
/// one input tuple determines one 160-byte disclosure.
pub proof fn lemma_encoding_deterministic(
    agent_did: Seq<char>,
    controller_did: Seq<char>,
    credential_signature: Seq<u8>,
    credential_timestamp: u64,
    current_timestamp: u64,
    first: ClaimModel,
    second: ClaimModel,
)
    requires
        first == claim_of(
            agent_did,
            controller_did,
            credential_signature,
            credential_timestamp,
            current_timestamp,
        ),
        second == claim_of(
            agent_did,
            controller_did,
            credential_signature,
            credential_timestamp,
            current_timestamp,
        ),
    ensures
        spec_encode(first) == spec_encode(second),
{
}

} // verus!
