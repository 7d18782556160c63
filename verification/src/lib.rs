//! A small verified ledger library: an asset registry (create, transfer,
//! breed) and a claim registry (create, revoke, transfer), both written as
//! deterministic state machines over explicit storage. The host that drives
//! them supplies the caller identity, a randomness seed, the extrinsic index
//! and the block height as plain values.

use vstd::prelude::*;

pub mod assets;
pub mod claims;
pub mod dna;

verus! {

/// The typed failures of the registry operations. Every failure is a
/// precondition violation surfaced synchronously; a failing call leaves the
/// registry storage unchanged.
#[derive(Clone, Copy, Debug, PartialEq, Eq, Structural)]
pub enum Error {
    /// The asset counter is at the maximum representable value.
    CounterOverflow,
    /// A referenced asset id was never created.
    InvalidAssetId,
    /// Breeding was attempted with the same asset as both parents.
    RequireDifferentParent,
    /// The caller does not own the referenced asset.
    NotOwner,
    /// A claim with the same proof bytes already exists.
    ProofAlreadyExist,
    /// The proof bytes exceed the registry's configured maximum length.
    ProofTooLong,
    /// No claim with the given proof bytes exists.
    ClaimNotExist,
    /// The caller does not own the referenced claim.
    NotClaimOwner,
}

} // verus!
