//! Verified core of a controller-claim attestation service.
//!
//! The library proves, over a mathematical model, the computation that turns
//! a claimed agent identifier, a controller identifier and a credential into
//! a claim result, together with the canonical 160-byte layout in which that
//! result is disclosed. The surrounding proving backend, command line and
//! network plumbing live outside the library and only hand plain values in
//! and out.

pub mod claim;
pub mod codec;
pub mod hashing;
pub mod hexstr;
pub mod orchestrator;
