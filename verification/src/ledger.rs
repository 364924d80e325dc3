//! The claim ledger: one record per claimant/claim pair, the sole
//! idempotency guard of the engine.
//!
//! Settlement reserves a record, moves the assets, and only then commits.
//! A failed movement aborts the reservation instead, so the record stays
//! retryable and no settled record ever reverts.

use vstd::prelude::*;

use crate::byteseq::bytes_eq;
use crate::ErrorCode;

verus! {

/// The per-pair idempotency record: whether the claim of `user_id` under
/// `claim_id` has already been settled.
pub struct UserClaim {
    pub user_id: Vec<u8>,
    pub claim_id: Vec<u8>,
    pub is_claimed: bool,
}

/// Some record in `s` carries the pair `(uid, cid)`.
pub open spec fn spec_has_record(s: Seq<UserClaim>, uid: Seq<u8>, cid: Seq<u8>) -> bool {
    exists|i: int| 0 <= i < s.len() && s[i].user_id@ == uid && s[i].claim_id@ == cid
}

/// Some record in `s` carries the pair `(uid, cid)` and is settled.
pub open spec fn spec_settled(s: Seq<UserClaim>, uid: Seq<u8>, cid: Seq<u8>) -> bool {
    exists|i: int|
        0 <= i < s.len() && s[i].user_id@ == uid && s[i].claim_id@ == cid && s[i].is_claimed
}

/// A handle on one reserved, unsettled record; resolved by `commit` or
/// `abort` on the ledger it came from.
#[derive(Debug)]
pub struct Reservation {
    pub index: usize,
}

/// The set of idempotency records, keyed by claimant/claim pair.
pub struct ClaimLedger {
    pub records: Vec<UserClaim>,
}

impl ClaimLedger {
    /// No two records carry the same claimant/claim pair.
    pub open spec fn wf(self) -> bool {
        forall|i: int, j: int|
            0 <= i < j < self.records@.len() ==> !(self.records@[i].user_id@ == self.records@[
                j
            ].user_id@ && self.records@[i].claim_id@ == self.records@[j].claim_id@)
    }

    /// The pair `(uid, cid)` has been settled.
    pub open spec fn is_settled(self, uid: Seq<u8>, cid: Seq<u8>) -> bool {
        spec_settled(self.records@, uid, cid)
    }

    /// A reservation names a live, unsettled record of this ledger holding
    /// the pair `(uid, cid)`.
    pub open spec fn valid_reservation(self, res: Reservation, uid: Seq<u8>, cid: Seq<u8>) -> bool {
        &&& res.index < self.records@.len()
        &&& self.records@[res.index as int].user_id@ == uid
        &&& self.records@[res.index as int].claim_id@ == cid
        &&& !self.records@[res.index as int].is_claimed
    }

    /// An empty ledger: nothing recorded, nothing settled.
    pub fn new() -> (l: ClaimLedger)
        ensures
            l.wf(),
            l.records@.len() == 0,
            forall|u: Seq<u8>, c: Seq<u8>| !(#[trigger] l.is_settled(u, c)),
    {
        ClaimLedger { records: Vec::new() }
    }

    /// The index of the record for `(user_id, claim_id)`, if one exists.
    fn find(&self, user_id: &Vec<u8>, claim_id: &Vec<u8>) -> (r: Option<usize>)
        ensures
            match r {
                Some(i) => {
                    &&& i < self.records@.len()
                    &&& self.records@[i as int].user_id@ == user_id@
                    &&& self.records@[i as int].claim_id@ == claim_id@
                },
                None => !spec_has_record(self.records@, user_id@, claim_id@),
            },
    {
        let mut i: usize = 0;
        while i < self.records.len()
            invariant
                0 <= i <= self.records@.len(),
                forall|j: int|
                    0 <= j < i ==> !(self.records@[j].user_id@ == user_id@ && self.records@[
                        j
                    ].claim_id@ == claim_id@),
            decreases self.records@.len() - i,
        {
            let rec = &self.records[i];
            if bytes_eq(&rec.user_id, user_id) && bytes_eq(&rec.claim_id, claim_id) {
                return Some(i);
            }
            i = i + 1;
        }
        None
    }

    /// Looks up or lazily creates the record for the pair. If the pair is
    /// already settled, refuses with `AlreadyClaimed` and changes nothing;
    /// otherwise hands out a reservation on the (unsettled) record. Neither
    /// outcome settles or unsettles any pair.
    pub fn try_reserve(&mut self, user_id: &Vec<u8>, claim_id: &Vec<u8>) -> (r: Result<
        Reservation,
        ErrorCode,
    >)
        requires
            old(self).wf(),
        ensures
            final(self).wf(),
            r is Err <==> old(self).is_settled(user_id@, claim_id@),
            forall|u: Seq<u8>, c: Seq<u8>|
                #[trigger] final(self).is_settled(u, c) == old(self).is_settled(u, c),
            match r {
                Ok(res) => final(self).valid_reservation(res, user_id@, claim_id@),
                Err(e) => e == ErrorCode::AlreadyClaimed && *final(self) == *old(self),
            },
    {
        match self.find(user_id, claim_id) {
            Some(i) => {
                if self.records[i].is_claimed {
                    proof {
                        assert(spec_settled(self.records@, user_id@, claim_id@));
                    }
                    return Err(ErrorCode::AlreadyClaimed);
                }
                proof {
                    assert forall|k: int|
                        0 <= k < self.records@.len() && self.records@[k].user_id@ == user_id@
                            && self.records@[k].claim_id@ == claim_id@ implies !self.records@[
                        k
                    ].is_claimed by {
                        assert(k == i);
                    }
                }
                Ok(Reservation { index: i })
            },
            None => {
                let rec = UserClaim {
                    user_id: user_id.clone(),
                    claim_id: claim_id.clone(),
                    is_claimed: false,
                };
                let new_index = self.records.len();
                proof {
                    assert(rec.user_id@ == user_id@);
                    assert(rec.claim_id@ == claim_id@);
                }
                self.records.push(rec);
                proof {
                    let s = old(self).records@;
                    let s2 = self.records@;
                    assert forall|u: Seq<u8>, c: Seq<u8>|
                        #[trigger] spec_settled(s2, u, c) == spec_settled(s, u, c) by {
                        if spec_settled(s2, u, c) {
                            let k = choose|k: int|
                                0 <= k < s2.len() && s2[k].user_id@ == u && s2[k].claim_id@ == c
                                    && s2[k].is_claimed;
                            assert(k < s.len() && s[k] == s2[k]);
                        }
                        if spec_settled(s, u, c) {
                            let k = choose|k: int|
                                0 <= k < s.len() && s[k].user_id@ == u && s[k].claim_id@ == c
                                    && s[k].is_claimed;
                            assert(s2[k] == s[k]);
                        }
                    }
                    assert forall|i: int, j: int| 0 <= i < j < s2.len() implies !(s2[i].user_id@
                        == s2[j].user_id@ && s2[i].claim_id@ == s2[j].claim_id@) by {
                        if j == s.len() {
                            assert(s2[j].user_id@ == user_id@ && s2[j].claim_id@ == claim_id@);
                            if s2[i].user_id@ == user_id@ && s2[i].claim_id@ == claim_id@ {
                                assert(s[i] == s2[i]);
                                assert(spec_has_record(s, user_id@, claim_id@));
                            }
                        } else {
                            assert(s[i] == s2[i] && s[j] == s2[j]);
                        }
                    }
                }
                Ok(Reservation { index: new_index })
            },
        }
    }

    /// Settles the reserved record: its flag becomes `true` and stays so.
    /// No other pair's state moves.
    pub fn commit(&mut self, res: Reservation)
        requires
            old(self).wf(),
            res.index < old(self).records@.len(),
            !old(self).records@[res.index as int].is_claimed,
        ensures
            final(self).wf(),
            final(self).records@.len() == old(self).records@.len(),
            final(self).is_settled(
                old(self).records@[res.index as int].user_id@,
                old(self).records@[res.index as int].claim_id@,
            ),
            forall|u: Seq<u8>, c: Seq<u8>|
                !(u == old(self).records@[res.index as int].user_id@ && c == old(self).records@[
                    res.index as int
                ].claim_id@) ==> #[trigger] final(self).is_settled(u, c) == old(self).is_settled(
                    u,
                    c,
                ),
    {
        let i = res.index;
        self.records[i].is_claimed = true;
        proof {
            let ghost uid = old(self).records@[i as int].user_id@;
            let ghost cid = old(self).records@[i as int].claim_id@;
            let s = old(self).records@;
            let s2 = self.records@;
            assert(s2[i as int].user_id@ == uid && s2[i as int].claim_id@ == cid && s2[
                i as int
            ].is_claimed);
            assert forall|u: Seq<u8>, c: Seq<u8>| !(u == uid && c == cid) implies #[trigger] spec_settled(
                s2,
                u,
                c,
            ) == spec_settled(s, u, c) by {
                if spec_settled(s2, u, c) {
                    let k = choose|k: int|
                        0 <= k < s2.len() && s2[k].user_id@ == u && s2[k].claim_id@ == c && s2[
                            k
                        ].is_claimed;
                    assert(k != i);
                    assert(s[k] == s2[k]);
                }
                if spec_settled(s, u, c) {
                    let k = choose|k: int|
                        0 <= k < s.len() && s[k].user_id@ == u && s[k].claim_id@ == c && s[
                            k
                        ].is_claimed;
                    assert(k != i);
                    assert(s2[k] == s[k]);
                }
            }
            assert forall|a: int, b: int| 0 <= a < b < s2.len() implies !(s2[a].user_id@ == s2[
                b
            ].user_id@ && s2[a].claim_id@ == s2[b].claim_id@) by {
                assert(s2[a].user_id@ == s[a].user_id@ && s2[a].claim_id@ == s[a].claim_id@);
                assert(s2[b].user_id@ == s[b].user_id@ && s2[b].claim_id@ == s[b].claim_id@);
            }
        }
    }

    /// Releases the reservation without settling: the record keeps its
    /// unsettled flag, so the claim may be retried. The ledger is unchanged.
    pub fn abort(&mut self, res: Reservation)
        ensures
            *final(self) == *old(self),
    {
        let _ = res;
    }
}

} // verus!
