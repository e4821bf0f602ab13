//! SHA-256 hashing of identifiers, through the `sha2` crate.

use vstd::prelude::*;
use sha2::{Digest, Sha256};

verus! {

/// The SHA-256 digest of a string's UTF-8 bytes. The digest is a function of
/// the string contents alone, so it carries a name rather than a definition;
/// the only facts available about it are those stated on `sha256_str`.
pub uninterp spec fn sha256_of(s: Seq<char>) -> Seq<u8>;

/// Relies on `sha2::Sha256` (SHA-256 of FIPS 180-4): the digest is 32 bytes
/// and depends on the hashed bytes alone.
#[verifier::external_body]
fn sha256_str(s: &str) -> (digest: Vec<u8>)
    ensures
        digest@ == sha256_of(s@),
        digest@.len() == 32,
{
    let mut hasher = Sha256::new();
    hasher.update(s.as_bytes());
    hasher.finalize().to_vec()
}

/// The public hash rule shared by the evaluator and both orchestrator call
/// sites: an identifier's public hash is the SHA-256 digest of its text.
pub fn hash_did(did: &str) -> (digest: Vec<u8>)
    ensures
        digest@ == sha256_of(did@),
        digest@.len() == 32,
{
    sha256_str(did)
}

/// Byte-for-byte equality of two byte strings.
pub fn bytes_eq(a: &[u8], b: &[u8]) -> (equal: bool)
    ensures
        equal <==> a@ == b@,
{
    if a.len() != b.len() {
        assert(a@ != b@);
        return false;
    }
    let mut i: usize = 0;
    while i < a.len()
        invariant
            i <= a@.len(),
            a@.len() == b@.len(),
            forall|j: int| 0 <= j < i ==> a@[j] == b@[j],
        decreases a@.len() - i,
    {
        if a[i] != b[i] {
            assert(a@ == b@ ==> a@[i as int] == b@[i as int]);
            return false;
        }
        i += 1;
    }
    assert(a@ =~= b@);
    true
}

} // verus!
