//! The claim window and the two published Merkle roots of a distribution.

use vstd::prelude::*;

verus! {

/// The immutable configuration of one distribution: the claim window
/// `[start_date, end_date]` and the Merkle root of each asset tree.
///
/// Invariant: `start_date < end_date`. A value is created once per
/// distribution and never mutated afterwards.
#[derive(Clone, Copy)]
pub struct ClaimPeriod {
    pub start_date: u64,
    pub end_date: u64,
    pub sol_merkle_root: [u8; 32],
    pub spl_merkle_root: [u8; 32],
}

impl ClaimPeriod {
    /// The window is well formed: it opens strictly before it closes.
    pub open spec fn wf(self) -> bool {
        self.start_date < self.end_date
    }

    /// `now` lies inside the closed claim window.
    pub open spec fn spec_is_active(self, now: u64) -> bool {
        self.start_date <= now <= self.end_date
    }

    /// `now` lies strictly after the claim window.
    pub open spec fn spec_is_expired(self, now: u64) -> bool {
        now > self.end_date
    }

    pub fn new(start_date: u64, end_date: u64, sol_merkle_root: [u8; 32], spl_merkle_root: [u8; 32]) -> (p: ClaimPeriod)
        requires
            start_date < end_date,
        ensures
            p.wf(),
            p.start_date == start_date,
            p.end_date == end_date,
            p.sol_merkle_root == sol_merkle_root,
            p.spl_merkle_root == spl_merkle_root,
    {
        ClaimPeriod { start_date, end_date, sol_merkle_root, spl_merkle_root }
    }

    /// Whether a claim may be settled at time `now`.
    pub fn is_active(&self, now: u64) -> (r: bool)
        ensures
            r == self.spec_is_active(now),
    {
        self.start_date <= now && now <= self.end_date
    }

    /// Whether the claim window has closed, so unclaimed funds may be swept.
    pub fn is_expired(&self, now: u64) -> (r: bool)
        ensures
            r == self.spec_is_expired(now),
    {
        now > self.end_date
    }
}

} // verus!
