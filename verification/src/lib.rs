//! Claim verification and settlement for a one-time, Merkle-committed
//! distribution of two assets (a native asset and a fungible token).
//!
//! A distribution publishes one Merkle root per asset together with a claim
//! window. During the window a claimant presents two inclusion proofs, one
//! per asset tree; a verified, not-yet-settled claim debits both pools at
//! most once. After the window an operator sweeps the remaining balances.

use vstd::prelude::*;

pub mod byteseq;
pub mod hashing;
pub mod ledger;
pub mod merkle;
pub mod period;
pub mod settlement;

verus! {

/// Failure modes of the claiming engine. Every operation reports its
/// failure through one of these; validated inputs never panic.
#[derive(Clone, Copy, Debug, PartialEq, Eq, Structural)]
pub enum ErrorCode {
    /// Distribution setup was invoked a second time.
    AlreadyInitialized,
    /// The record for this claimant/claim pair is already settled.
    AlreadyClaimed,
    /// A sweep was attempted before the claim window closed.
    ClaimPeriodNotEnded,
    /// A claim was attempted outside the claim window.
    ClaimPeriodNotActive,
    /// A recomputed Merkle root does not match the published root.
    InvalidMerkleProof,
    /// An asset movement could not be completed; no net movement remains.
    TransferFailed,
}

} // verus!
