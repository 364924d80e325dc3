//! Merkle inclusion-proof verification.
//!
//! The root is recomputed from a leaf by folding the sibling path into a
//! running hash. At every step the two operands are ordered canonically by
//! byte value before hashing, so a proof carries no left/right bits; the
//! off-line tree builder must pair nodes under the same convention.

use vstd::prelude::*;

use crate::byteseq::hash_eq;
use crate::byteseq::push_hash;
use crate::hashing::sha256;
use crate::hashing::sha256_of;

verus! {

/// Byte-lexicographic order on byte sequences: `a` is at most `b`.
pub open spec fn lex_le(a: Seq<u8>, b: Seq<u8>) -> bool
    decreases a.len(),
{
    if a.len() == 0 {
        true
    } else if b.len() == 0 {
        false
    } else if a[0] < b[0] {
        true
    } else if a[0] > b[0] {
        false
    } else {
        lex_le(a.skip(1), b.skip(1))
    }
}

/// The parent hash of two sibling nodes: the operands are ordered by byte
/// value, then concatenated and hashed.
pub open spec fn hash_pair(a: Seq<u8>, b: Seq<u8>) -> Seq<u8> {
    if lex_le(a, b) {
        sha256_of(a + b)
    } else {
        sha256_of(b + a)
    }
}

/// The root recomputed from `leaf` by folding in each sibling of the path,
/// leaf end first.
pub open spec fn merkle_root_from(leaf: Seq<u8>, siblings: Seq<Seq<u8>>) -> Seq<u8>
    decreases siblings.len(),
{
    if siblings.len() == 0 {
        leaf
    } else {
        merkle_root_from(hash_pair(leaf, siblings[0]), siblings.skip(1))
    }
}

/// The proof places `leaf` in the tree committed by `root`: the recomputed
/// root equals the published one. An empty path verifies exactly the
/// single-leaf tree, where the leaf is the root.
pub open spec fn proof_verifies(root: Seq<u8>, leaf: Seq<u8>, siblings: Seq<Seq<u8>>) -> bool {
    merkle_root_from(leaf, siblings) == root
}

/// An empty sibling path is valid exactly when the leaf is the root itself.
pub proof fn lemma_empty_proof(root: Seq<u8>, leaf: Seq<u8>)
    ensures
        proof_verifies(root, leaf, Seq::<Seq<u8>>::empty()) == (leaf == root),
{
}

/// A proof binds its root: a path that verifies against one root fails
/// against every different root, so any change to the published root,
/// however small, invalidates every proof.
pub proof fn lemma_proof_binds_root(
    root: Seq<u8>,
    other: Seq<u8>,
    leaf: Seq<u8>,
    siblings: Seq<Seq<u8>>,
)
    requires
        proof_verifies(root, leaf, siblings),
        other != root,
    ensures
        !proof_verifies(other, leaf, siblings),
{
}

/// Skipping a common prefix does not change the lexicographic order.
proof fn lemma_lex_le_skip(a: Seq<u8>, b: Seq<u8>, i: int)
    requires
        0 <= i <= a.len(),
        i <= b.len(),
        forall|j: int| 0 <= j < i ==> a[j] == b[j],
    ensures
        lex_le(a, b) == lex_le(a.skip(i), b.skip(i)),
    decreases i,
{
    if i > 0 {
        assert(a[0] == b[0]);
        assert forall|j: int| 0 <= j < i - 1 implies a.skip(1)[j] == b.skip(1)[j] by {
            assert(a.skip(1)[j] == a[j + 1]);
            assert(b.skip(1)[j] == b[j + 1]);
        }
        lemma_lex_le_skip(a.skip(1), b.skip(1), i - 1);
        assert(a.skip(1).skip(i - 1) =~= a.skip(i));
        assert(b.skip(1).skip(i - 1) =~= b.skip(i));
    } else {
        assert(a.skip(0) =~= a);
        assert(b.skip(0) =~= b);
    }
}

/// Compares two 32-byte hashes in the byte-lexicographic order.
fn lex_le_32(a: &[u8; 32], b: &[u8; 32]) -> (r: bool)
    ensures
        r == lex_le(a@, b@),
{
    let mut i: usize = 0;
    while i < 32
        invariant
            0 <= i <= 32,
            forall|j: int| 0 <= j < i ==> a@[j] == b@[j],
        decreases 32 - i,
    {
        if a[i] < b[i] {
            proof {
                lemma_lex_le_skip(a@, b@, i as int);
            }
            return true;
        }
        if a[i] > b[i] {
            proof {
                lemma_lex_le_skip(a@, b@, i as int);
            }
            return false;
        }
        i = i + 1;
    }
    proof {
        lemma_lex_le_skip(a@, b@, 32);
    }
    true
}

/// The parent hash of two sibling nodes, operands ordered by byte value.
fn hash_nodes(a: &[u8; 32], b: &[u8; 32]) -> (r: [u8; 32])
    ensures
        r@ == hash_pair(a@, b@),
{
    let mut data: Vec<u8> = Vec::with_capacity(64);
    if lex_le_32(a, b) {
        push_hash(&mut data, a);
        push_hash(&mut data, b);
        proof {
            assert(data@ =~= a@ + b@);
        }
    } else {
        push_hash(&mut data, b);
        push_hash(&mut data, a);
        proof {
            assert(data@ =~= b@ + a@);
        }
    }
    sha256(&data)
}

/// Checks a Merkle inclusion proof: recomputes the root from `leaf` along
/// `siblings` and compares it with the published `root`. Pure: no state is
/// read or written, and a mismatch yields `false`, never a panic.
pub fn verify_proof(root: &[u8; 32], leaf: &[u8; 32], siblings: &Vec<[u8; 32]>) -> (r: bool)
    ensures
        r == proof_verifies(root@, leaf@, siblings.deep_view()),
{
    let ghost path: Seq<Seq<u8>> = siblings.deep_view();
    proof {
        assert(path.skip(0) =~= path);
    }
    let mut cur: [u8; 32] = *leaf;
    let mut i: usize = 0;
    while i < siblings.len()
        invariant
            0 <= i <= siblings@.len(),
            path == siblings.deep_view(),
            path.len() == siblings@.len(),
            merkle_root_from(cur@, path.skip(i as int)) == merkle_root_from(leaf@, path),
        decreases siblings@.len() - i,
    {
        let sib: [u8; 32] = siblings[i];
        proof {
            assert(path.skip(i as int)[0] == sib@);
            assert(path.skip(i as int).skip(1) =~= path.skip(i as int + 1));
        }
        cur = hash_nodes(&cur, &sib);
        i = i + 1;
    }
    proof {
        assert(path.skip(path.len() as int) =~= Seq::<Seq<u8>>::empty());
    }
    hash_eq(&cur, root)
}

} // verus!
