use claiming::hashing::hash_claim_entry;
use claiming::ledger::ClaimLedger;
use claiming::merkle::verify_proof;
use claiming::settlement::Distribution;
use claiming::ErrorCode;
use sha2::{Digest, Sha256};

// --- reference tree builder -------------------------------------------------

fn sha(data: &[u8]) -> [u8; 32] {
    let digest = Sha256::digest(data);
    digest.into()
}

/// Reference leaf derivation: SHA-256(user_id || claim_id || amount LE).
fn leaf(uid: &[u8], cid: &[u8], amount: u64) -> [u8; 32] {
    let mut d: Vec<u8> = Vec::new();
    d.extend_from_slice(uid);
    d.extend_from_slice(cid);
    d.extend_from_slice(&amount.to_le_bytes());
    sha(&d)
}

/// Reference parent derivation: operands ordered by byte value, then hashed.
fn parent(a: &[u8; 32], b: &[u8; 32]) -> [u8; 32] {
    let (lo, hi) = if a <= b { (a, b) } else { (b, a) };
    let mut d: Vec<u8> = Vec::with_capacity(64);
    d.extend_from_slice(lo);
    d.extend_from_slice(hi);
    sha(&d)
}

/// Builds a four-leaf tree; returns the root and one proof per leaf.
fn tree4(leaves: &[[u8; 32]; 4]) -> ([u8; 32], Vec<Vec<[u8; 32]>>) {
    let p0 = parent(&leaves[0], &leaves[1]);
    let p1 = parent(&leaves[2], &leaves[3]);
    let root = parent(&p0, &p1);
    let proofs = vec![
        vec![leaves[1], p1],
        vec![leaves[0], p1],
        vec![leaves[3], p0],
        vec![leaves[2], p0],
    ];
    (root, proofs)
}

const WINDOW_START: u64 = 1000;
const WINDOW_END: u64 = 1000 + 7776000;

/// A distribution over two four-leaf trees. The native tree commits
/// ("alice","c1") -> 5 and ("bob","c2") -> 0; the token tree commits
/// ("alice","c1") -> 10 and ("bob","c2") -> 7.
struct Setup {
    d: Distribution,
    sol_proofs: Vec<Vec<[u8; 32]>>,
    spl_proofs: Vec<Vec<[u8; 32]>>,
}

fn setup(sol_fund: u64, spl_fund: u64) -> Setup {
    let sol_leaves = [
        leaf(b"alice", b"c1", 5),
        leaf(b"bob", b"c2", 0),
        leaf(b"carol", b"c3", 11),
        leaf(b"dave", b"c4", 2),
    ];
    let spl_leaves = [
        leaf(b"alice", b"c1", 10),
        leaf(b"bob", b"c2", 7),
        leaf(b"carol", b"c3", 1),
        leaf(b"dave", b"c4", 3),
    ];
    let (sol_root, sol_proofs) = tree4(&sol_leaves);
    let (spl_root, spl_proofs) = tree4(&spl_leaves);
    let mut d = Distribution::new();
    assert_eq!(d.initialize(WINDOW_START, WINDOW_END, sol_root, spl_root), Ok(()));
    d.fund_pools(sol_fund, spl_fund);
    Setup { d, sol_proofs, spl_proofs }
}

// --- Merkle verification ----------------------------------------------------

#[test]
fn verify_accepts_reference_tree() {
    let leaves = [
        leaf(b"alice", b"c1", 5),
        leaf(b"bob", b"c2", 0),
        leaf(b"carol", b"c3", 11),
        leaf(b"dave", b"c4", 2),
    ];
    let (root, proofs) = tree4(&leaves);
    for i in 0..4 {
        assert!(verify_proof(&root, &leaves[i], &proofs[i]));
    }
}

#[test]
fn verify_rejects_bit_flips() {
    let leaves = [
        leaf(b"alice", b"c1", 5),
        leaf(b"bob", b"c2", 0),
        leaf(b"carol", b"c3", 11),
        leaf(b"dave", b"c4", 2),
    ];
    let (root, proofs) = tree4(&leaves);

    let mut bad_leaf = leaves[0];
    bad_leaf[3] ^= 0x01;
    assert!(!verify_proof(&root, &bad_leaf, &proofs[0]));

    let mut bad_root = root;
    bad_root[31] ^= 0x80;
    assert!(!verify_proof(&bad_root, &leaves[0], &proofs[0]));

    let mut bad_proof = proofs[0].clone();
    bad_proof[1][0] ^= 0x10;
    assert!(!verify_proof(&root, &leaves[0], &bad_proof));
}

#[test]
fn verify_empty_proof_is_single_leaf_tree() {
    let l = leaf(b"alice", b"c1", 5);
    let empty: Vec<[u8; 32]> = Vec::new();
    assert!(verify_proof(&l, &l, &empty));
    let other = leaf(b"alice", b"c1", 6);
    assert!(!verify_proof(&other, &l, &empty));
}

#[test]
fn hash_claim_entry_matches_reference() {
    let uid = b"alice".to_vec();
    let cid = b"c1".to_vec();
    let h = hash_claim_entry(&uid, &cid, 5);
    assert_eq!(h, leaf(b"alice", b"c1", 5));
    // the digest is a real hash, not the input handed back
    assert_ne!(&h[..5], b"alice");
    assert_ne!(h, leaf(b"alice", b"c1", 6));
    assert_ne!(h, leaf(b"alice", b"c2", 5));
}

// --- initialization ---------------------------------------------------------

#[test]
fn initialize_twice_is_refused() {
    let mut d = Distribution::new();
    let root = [7u8; 32];
    assert_eq!(d.initialize(1000, 2000, root, root), Ok(()));
    assert_eq!(d.initialize(1000, 2000, root, root), Err(ErrorCode::AlreadyInitialized));
    assert_eq!(d.initialize(5, 9, [1u8; 32], [2u8; 32]), Err(ErrorCode::AlreadyInitialized));
}

// --- the claim scenario -----------------------------------------------------

#[test]
fn claim_settles_once_and_debits_pools() {
    let mut s = setup(100, 200);
    let uid = b"alice".to_vec();
    let cid = b"c1".to_vec();

    let r = s.d.claim(&uid, &cid, 5, 10, &s.sol_proofs[0], &s.spl_proofs[0], 2000);
    assert_eq!(r, Ok(()));
    assert_eq!(s.d.sol_pool, 95);
    assert_eq!(s.d.spl_pool, 190);

    // the same call one tick later is refused and moves nothing
    let r2 = s.d.claim(&uid, &cid, 5, 10, &s.sol_proofs[0], &s.spl_proofs[0], 2001);
    assert_eq!(r2, Err(ErrorCode::AlreadyClaimed));
    assert_eq!(s.d.sol_pool, 95);
    assert_eq!(s.d.spl_pool, 190);

    // different arguments for the same pair are refused too
    let r3 = s.d.claim(&uid, &cid, 11, 1, &s.sol_proofs[2], &s.spl_proofs[2], 2001);
    assert_eq!(r3, Err(ErrorCode::AlreadyClaimed));
    assert_eq!(s.d.sol_pool, 95);
    assert_eq!(s.d.spl_pool, 190);

    // another pair still settles independently
    let r4 = s.d.claim(&b"carol".to_vec(), &b"c3".to_vec(), 11, 1, &s.sol_proofs[2], &s.spl_proofs[2], 2001);
    assert_eq!(r4, Ok(()));
    assert_eq!(s.d.sol_pool, 84);
    assert_eq!(s.d.spl_pool, 189);
}

#[test]
fn claim_with_wrong_amount_proof_is_refused_and_retryable() {
    let mut s = setup(100, 200);
    let uid = b"alice".to_vec();
    let cid = b"c1".to_vec();

    // the proof commits amount 5; claiming 6 must fail
    let r = s.d.claim(&uid, &cid, 6, 10, &s.sol_proofs[0], &s.spl_proofs[0], 2000);
    assert_eq!(r, Err(ErrorCode::InvalidMerkleProof));
    assert_eq!(s.d.sol_pool, 100);
    assert_eq!(s.d.spl_pool, 200);

    // the record stayed unsettled: the correct claim still succeeds
    let r2 = s.d.claim(&uid, &cid, 5, 10, &s.sol_proofs[0], &s.spl_proofs[0], 2000);
    assert_eq!(r2, Ok(()));
    assert_eq!(s.d.sol_pool, 95);
    assert_eq!(s.d.spl_pool, 190);
}

#[test]
fn claim_outside_window_is_refused() {
    let mut s = setup(100, 200);
    let uid = b"alice".to_vec();
    let cid = b"c1".to_vec();

    // before the window opens, with fully valid proofs
    let r = s.d.claim(&uid, &cid, 5, 10, &s.sol_proofs[0], &s.spl_proofs[0], WINDOW_START - 1);
    assert_eq!(r, Err(ErrorCode::ClaimPeriodNotActive));

    // after the window closes, with otherwise valid arguments
    let r2 = s.d.claim(&uid, &cid, 5, 10, &s.sol_proofs[0], &s.spl_proofs[0], WINDOW_END + 1);
    assert_eq!(r2, Err(ErrorCode::ClaimPeriodNotActive));

    assert_eq!(s.d.sol_pool, 100);
    assert_eq!(s.d.spl_pool, 200);

    // the window boundaries themselves are active
    let r3 = s.d.claim(&uid, &cid, 5, 10, &s.sol_proofs[0], &s.spl_proofs[0], WINDOW_START);
    assert_eq!(r3, Ok(()));
}

#[test]
fn claim_with_short_pool_is_compensated() {
    // token pool too small: the already-moved native leg must be paid back
    let mut s = setup(10, 5);
    let uid = b"alice".to_vec();
    let cid = b"c1".to_vec();

    let r = s.d.claim(&uid, &cid, 5, 10, &s.sol_proofs[0], &s.spl_proofs[0], 2000);
    assert_eq!(r, Err(ErrorCode::TransferFailed));
    assert_eq!(s.d.sol_pool, 10);
    assert_eq!(s.d.spl_pool, 5);

    // once the pool is topped up the same claim settles
    s.d.fund_pools(0, 5);
    let r2 = s.d.claim(&uid, &cid, 5, 10, &s.sol_proofs[0], &s.spl_proofs[0], 2000);
    assert_eq!(r2, Ok(()));
    assert_eq!(s.d.sol_pool, 5);
    assert_eq!(s.d.spl_pool, 0);
}

#[test]
fn zero_amount_still_needs_a_valid_proof() {
    let mut s = setup(100, 200);
    let uid = b"bob".to_vec();
    let cid = b"c2".to_vec();

    // bob's native amount is 0: a valid zero-amount proof settles, the
    // native pool is untouched, the token pool pays 7
    let r = s.d.claim(&uid, &cid, 0, 7, &s.sol_proofs[1], &s.spl_proofs[1], 2000);
    assert_eq!(r, Ok(()));
    assert_eq!(s.d.sol_pool, 100);
    assert_eq!(s.d.spl_pool, 193);

    // a zero amount with a proof for the wrong leaf is still refused
    let mut s2 = setup(100, 200);
    let r2 = s2.d.claim(&uid, &cid, 0, 7, &s2.sol_proofs[0], &s2.spl_proofs[1], 2000);
    assert_eq!(r2, Err(ErrorCode::InvalidMerkleProof));
    assert_eq!(s2.d.sol_pool, 100);
    assert_eq!(s2.d.spl_pool, 200);
}

// --- the sweep --------------------------------------------------------------

#[test]
fn sweep_before_end_is_refused() {
    let mut s = setup(100, 200);
    assert_eq!(s.d.reclaim_unclaimed(2000), Err(ErrorCode::ClaimPeriodNotEnded));
    assert_eq!(s.d.reclaim_unclaimed(WINDOW_END), Err(ErrorCode::ClaimPeriodNotEnded));
    assert_eq!(s.d.sol_pool, 100);
    assert_eq!(s.d.spl_pool, 200);
}

#[test]
fn sweep_after_end_drains_and_repeats_as_zero() {
    let mut s = setup(100, 200);
    let uid = b"alice".to_vec();
    let cid = b"c1".to_vec();
    let r = s.d.claim(&uid, &cid, 5, 10, &s.sol_proofs[0], &s.spl_proofs[0], 2000);
    assert_eq!(r, Ok(()));

    // the sweep reports exactly the remaining balances
    assert_eq!(s.d.reclaim_unclaimed(WINDOW_END + 1), Ok((95, 190)));
    assert_eq!(s.d.sol_pool, 0);
    assert_eq!(s.d.spl_pool, 0);

    // a repeat sweep transfers zero and succeeds
    assert_eq!(s.d.reclaim_unclaimed(WINDOW_END + 2), Ok((0, 0)));
}

// --- the ledger protocol ----------------------------------------------------

#[test]
fn ledger_reserve_commit_abort() {
    let mut l = ClaimLedger::new();
    let uid = b"alice".to_vec();
    let cid = b"c1".to_vec();

    // reserve, then abort: the pair stays claimable
    let res = l.try_reserve(&uid, &cid).expect("fresh pair must reserve");
    l.abort(res);
    let res2 = l.try_reserve(&uid, &cid).expect("aborted pair must reserve again");

    // commit: the pair is settled for good
    l.commit(res2);
    assert_eq!(l.try_reserve(&uid, &cid).unwrap_err(), ErrorCode::AlreadyClaimed);

    // an unrelated pair is unaffected
    assert!(l.try_reserve(&uid, &b"c9".to_vec()).is_ok());
}
