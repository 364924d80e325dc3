//! The settlement engine and the post-window sweep for one distribution.
//!
//! A `Distribution` holds the write-once claim window and roots, the
//! idempotency ledger, and the two custodial pool balances. `claim` settles
//! a verified, unclaimed entry at most once; `reclaim_unclaimed` drains the
//! pools to the treasury after the window closes.

use vstd::prelude::*;

use crate::hashing::claim_leaf_hash;
use crate::hashing::hash_claim_entry;
use crate::ledger::ClaimLedger;
use crate::merkle::proof_verifies;
use crate::merkle::verify_proof;
use crate::period::ClaimPeriod;
use crate::ErrorCode;

verus! {

/// One distribution: its window and roots (set once by `initialize`), its
/// claim ledger, and the balances of the two custodial pools.
pub struct Distribution {
    pub period: Option<ClaimPeriod>,
    pub ledger: ClaimLedger,
    pub sol_pool: u64,
    pub spl_pool: u64,
}

impl Distribution {
    /// The ledger keys are unique and the window, once set, is well formed.
    pub open spec fn wf(self) -> bool {
        &&& self.ledger.wf()
        &&& (self.period is Some ==> self.period->Some_0.wf())
    }

    /// The distribution has been set up: window and roots are published.
    pub open spec fn is_initialized(self) -> bool {
        self.period is Some
    }

    /// The pair `(uid, cid)` has been settled.
    pub open spec fn is_settled(self, uid: Seq<u8>, cid: Seq<u8>) -> bool {
        self.ledger.is_settled(uid, cid)
    }

    /// What `claim` decides on a given state and request, in the order the
    /// engine checks: the window gates first, then the idempotency record,
    /// then both inclusion proofs, then the pool balances.
    pub open spec fn claim_result(
        self,
        uid: Seq<u8>,
        cid: Seq<u8>,
        sol_amount: u64,
        spl_amount: u64,
        sol_path: Seq<Seq<u8>>,
        spl_path: Seq<Seq<u8>>,
        now: u64,
    ) -> Result<(), ErrorCode>
        recommends
            self.is_initialized(),
    {
        let p = self.period->Some_0;
        if !p.spec_is_active(now) {
            Err(ErrorCode::ClaimPeriodNotActive)
        } else if self.is_settled(uid, cid) {
            Err(ErrorCode::AlreadyClaimed)
        } else if !(proof_verifies(
            p.sol_merkle_root@,
            claim_leaf_hash(uid, cid, sol_amount),
            sol_path,
        ) && proof_verifies(
            p.spl_merkle_root@,
            claim_leaf_hash(uid, cid, spl_amount),
            spl_path,
        )) {
            Err(ErrorCode::InvalidMerkleProof)
        } else if self.sol_pool < sol_amount || self.spl_pool < spl_amount {
            Err(ErrorCode::TransferFailed)
        } else {
            Ok(())
        }
    }

    /// What `reclaim_unclaimed` decides and reports: refused until the
    /// window has closed, then exactly the two current pool balances.
    pub open spec fn sweep_result(self, now: u64) -> Result<(u64, u64), ErrorCode>
        recommends
            self.is_initialized(),
    {
        if !self.period->Some_0.spec_is_expired(now) {
            Err(ErrorCode::ClaimPeriodNotEnded)
        } else {
            Ok((self.sol_pool, self.spl_pool))
        }
    }

    /// The state a successful sweep leaves behind: both pools empty,
    /// everything else untouched.
    pub open spec fn swept(self) -> Distribution {
        Distribution { sol_pool: 0u64, spl_pool: 0u64, ..self }
    }

    /// A fresh distribution: not initialized, empty ledger, empty pools.
    pub fn new() -> (d: Distribution)
        ensures
            d.wf(),
            !d.is_initialized(),
            d.sol_pool == 0,
            d.spl_pool == 0,
            forall|u: Seq<u8>, c: Seq<u8>| !(#[trigger] d.is_settled(u, c)),
    {
        Distribution { period: None, ledger: ClaimLedger::new(), sol_pool: 0, spl_pool: 0 }
    }

    /// Funds the custodial pools ahead of the claim window.
    pub fn fund_pools(&mut self, sol_amount: u64, spl_amount: u64)
        requires
            old(self).sol_pool + sol_amount <= u64::MAX,
            old(self).spl_pool + spl_amount <= u64::MAX,
        ensures
            *final(self) == (Distribution {
                sol_pool: (old(self).sol_pool + sol_amount) as u64,
                spl_pool: (old(self).spl_pool + spl_amount) as u64,
                ..*old(self)
            }),
    {
        self.sol_pool = self.sol_pool + sol_amount;
        self.spl_pool = self.spl_pool + spl_amount;
    }

    /// Publishes the claim window and the two Merkle roots, once. A second
    /// call is refused with `AlreadyInitialized` and changes nothing.
    pub fn initialize(
        &mut self,
        start_date: u64,
        end_date: u64,
        sol_merkle_root: [u8; 32],
        spl_merkle_root: [u8; 32],
    ) -> (r: Result<(), ErrorCode>)
        requires
            old(self).wf(),
            start_date < end_date,
        ensures
            final(self).wf(),
            r is Err <==> old(self).is_initialized(),
            match r {
                Ok(()) => *final(self) == (Distribution {
                    period: Some(
                        ClaimPeriod { start_date, end_date, sol_merkle_root, spl_merkle_root },
                    ),
                    ..*old(self)
                }),
                Err(e) => e == ErrorCode::AlreadyInitialized && *final(self) == *old(self),
            },
    {
        if self.period.is_some() {
            return Err(ErrorCode::AlreadyInitialized);
        }
        self.period = Some(
            ClaimPeriod::new(start_date, end_date, sol_merkle_root, spl_merkle_root),
        );
        Ok(())
    }

    /// Settles one claim: gates on the window, reserves the idempotency
    /// record, verifies one inclusion proof per asset tree (a zero amount
    /// still needs a valid proof for its zero-amount leaf), then moves both
    /// amounts out of the pools and commits. Any failure leaves zero net
    /// movement: a half-done native leg is paid back before the reservation
    /// is aborted, so the pair stays claimable.
    pub fn claim(
        &mut self,
        user_id: &Vec<u8>,
        claim_id: &Vec<u8>,
        sol_amount: u64,
        spl_amount: u64,
        sol_proof: &Vec<[u8; 32]>,
        spl_proof: &Vec<[u8; 32]>,
        now: u64,
    ) -> (r: Result<(), ErrorCode>)
        requires
            old(self).wf(),
            old(self).is_initialized(),
        ensures
            final(self).wf(),
            final(self).period == old(self).period,
            r == old(self).claim_result(
                user_id@,
                claim_id@,
                sol_amount,
                spl_amount,
                sol_proof.deep_view(),
                spl_proof.deep_view(),
                now,
            ),
            r is Ok ==> {
                &&& final(self).sol_pool == old(self).sol_pool - sol_amount
                &&& final(self).spl_pool == old(self).spl_pool - spl_amount
                &&& final(self).is_settled(user_id@, claim_id@)
                &&& forall|u: Seq<u8>, c: Seq<u8>|
                    !(u == user_id@ && c == claim_id@) ==> #[trigger] final(self).is_settled(u, c)
                        == old(self).is_settled(u, c)
            },
            r is Err ==> {
                &&& final(self).sol_pool == old(self).sol_pool
                &&& final(self).spl_pool == old(self).spl_pool
                &&& forall|u: Seq<u8>, c: Seq<u8>|
                    #[trigger] final(self).is_settled(u, c) == old(self).is_settled(u, c)
            },
            forall|u: Seq<u8>, c: Seq<u8>|
                old(self).is_settled(u, c) ==> #[trigger] final(self).is_settled(u, c),
    {
        let p = self.period.unwrap();

        // Window gate: claims settle only inside [start_date, end_date].
        if !p.is_active(now) {
            return Err(ErrorCode::ClaimPeriodNotActive);
        }

        // Idempotency gate: reserve the record; a settled pair is refused.
        let res = match self.ledger.try_reserve(user_id, claim_id) {
            Ok(res) => res,
            Err(e) => {
                return Err(e);
            },
        };

        // Both proofs must place the pair's leaves in their trees.
        let sol_leaf = hash_claim_entry(user_id, claim_id, sol_amount);
        let spl_leaf = hash_claim_entry(user_id, claim_id, spl_amount);
        let sol_ok = verify_proof(&p.sol_merkle_root, &sol_leaf, sol_proof);
        let spl_ok = verify_proof(&p.spl_merkle_root, &spl_leaf, spl_proof);
        if !(sol_ok && spl_ok) {
            self.ledger.abort(res);
            return Err(ErrorCode::InvalidMerkleProof);
        }

        // Native leg.
        if sol_amount > 0 {
            if self.sol_pool < sol_amount {
                self.ledger.abort(res);
                return Err(ErrorCode::TransferFailed);
            }
            self.sol_pool = self.sol_pool - sol_amount;
        }

        // Token leg; on failure the native leg is compensated first, so an
        // aborted reservation corresponds to zero net movement.
        if spl_amount > 0 {
            if self.spl_pool < spl_amount {
                self.sol_pool = self.sol_pool + sol_amount;
                self.ledger.abort(res);
                return Err(ErrorCode::TransferFailed);
            }
            self.spl_pool = self.spl_pool - spl_amount;
        }

        self.ledger.commit(res);
        Ok(())
    }

    /// Sweeps the pools after the window: refused with `ClaimPeriodNotEnded`
    /// until `now` passes `end_date`, then reports and removes the entire
    /// current balances, bound for the treasury. A repeat sweep reports
    /// `(0, 0)`.
    pub fn reclaim_unclaimed(&mut self, now: u64) -> (r: Result<(u64, u64), ErrorCode>)
        requires
            old(self).wf(),
            old(self).is_initialized(),
        ensures
            final(self).wf(),
            r == old(self).sweep_result(now),
            r is Ok ==> *final(self) == old(self).swept(),
            r is Err ==> *final(self) == *old(self),
    {
        let p = self.period.unwrap();
        if !p.is_expired(now) {
            return Err(ErrorCode::ClaimPeriodNotEnded);
        }
        let sol = self.sol_pool;
        let spl = self.spl_pool;
        self.sol_pool = 0;
        self.spl_pool = 0;
        Ok((sol, spl))
    }
}

/// At most one settlement per pair: on a state where `(uid, cid)` is
/// settled, a claim for that pair inside the window is refused with
/// `AlreadyClaimed`, whatever amounts and proofs it carries. Together with
/// `claim`'s contract (a refused claim moves nothing), a pair's assets move
/// at most once, ever.
pub proof fn lemma_claim_at_most_once(
    d: Distribution,
    uid: Seq<u8>,
    cid: Seq<u8>,
    sol_amount: u64,
    spl_amount: u64,
    sol_path: Seq<Seq<u8>>,
    spl_path: Seq<Seq<u8>>,
    now: u64,
)
    requires
        d.is_initialized(),
        d.is_settled(uid, cid),
        d.period->Some_0.spec_is_active(now),
    ensures
        d.claim_result(uid, cid, sol_amount, spl_amount, sol_path, spl_path, now) == Err::<
            (),
            ErrorCode,
        >(ErrorCode::AlreadyClaimed),
{
}

/// A claim strictly before the window opens or strictly after it closes is
/// refused with `ClaimPeriodNotActive`, whatever the proofs say.
pub proof fn lemma_claim_outside_window(
    d: Distribution,
    uid: Seq<u8>,
    cid: Seq<u8>,
    sol_amount: u64,
    spl_amount: u64,
    sol_path: Seq<Seq<u8>>,
    spl_path: Seq<Seq<u8>>,
    now: u64,
)
    requires
        d.is_initialized(),
        now < d.period->Some_0.start_date || now > d.period->Some_0.end_date,
    ensures
        d.claim_result(uid, cid, sol_amount, spl_amount, sol_path, spl_path, now) == Err::<
            (),
            ErrorCode,
        >(ErrorCode::ClaimPeriodNotActive),
{
}

/// A sweep at or before the window's close is refused with
/// `ClaimPeriodNotEnded`.
pub proof fn lemma_sweep_before_end(d: Distribution, now: u64)
    requires
        d.is_initialized(),
        now <= d.period->Some_0.end_date,
    ensures
        d.sweep_result(now) == Err::<(u64, u64), ErrorCode>(ErrorCode::ClaimPeriodNotEnded),
{
}

/// After the window closes, a sweep reports exactly the pools' current
/// balances, and a repeat sweep on the swept state reports zero for both.
pub proof fn lemma_sweep_drains(d: Distribution, now: u64, later: u64)
    requires
        d.is_initialized(),
        now > d.period->Some_0.end_date,
        later > d.period->Some_0.end_date,
    ensures
        d.sweep_result(now) == Ok::<(u64, u64), ErrorCode>((d.sol_pool, d.spl_pool)),
        d.swept().sweep_result(later) == Ok::<(u64, u64), ErrorCode>((0u64, 0u64)),
{
}

} // verus!
