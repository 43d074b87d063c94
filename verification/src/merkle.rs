//! Merkle commitments over field-encoded document hashes.
//!
//! The commitment is the root of a binary hash tree over the leaves, padded
//! with zero leaves to the next power of two. The node hash is the absorbing
//! fold of the two children under a domain tag; like the field itself it is a
//! documented, pluggable parameter of the scheme.

use vstd::prelude::*;
use crate::field::{fe_add, fe_add_spec, fe_fold, fe_fold_spec, is_fe, lemma_fe_fold_spec_fe, FOLD_BASE};

verus! {

/// Domain-separation tag that starts a node-hash fold.
pub const NODE_TAG: u64 = 0x6E;

/// Most leaves a commitment may cover; keeps padded sizes in machine range.
pub const MAX_LEAVES: usize = 0x1_0000;

/// The hash of an interior node, as mathematics.
pub open spec fn node_hash_spec(l: u64, r: u64) -> u64 {
    fe_fold_spec(fe_fold_spec(NODE_TAG, FOLD_BASE, l), FOLD_BASE, r)
}

/// The hash of an interior node over its two children.
pub fn node_hash(l: u64, r: u64) -> (h: u64)
    ensures
        h == node_hash_spec(l, r),
        is_fe(h),
{
    let h0 = fe_fold(NODE_TAG, FOLD_BASE, l);
    fe_fold(h0, FOLD_BASE, r)
}

/// The level above a row of nodes: adjacent pairs hashed together.
pub open spec fn next_level_spec(s: Seq<u64>) -> Seq<u64> {
    Seq::new(s.len() / 2, |i: int| node_hash_spec(s[2 * i], s[2 * i + 1]))
}

/// The root of a tree whose bottom row is `s`, halving rows upward.
pub open spec fn root_spec(s: Seq<u64>) -> u64
    decreases s.len(),
{
    if s.len() == 0 {
        0
    } else if s.len() == 1 {
        s[0]
    } else {
        root_spec(next_level_spec(s))
    }
}

/// Whether a row width is a power of two.
pub open spec fn is_pow2(n: nat) -> bool
    decreases n,
{
    if n == 0 {
        false
    } else if n == 1 {
        true
    } else {
        n % 2 == 0 && is_pow2(n / 2)
    }
}

/// The least power of two at or above a count.
pub open spec fn next_pow2(n: nat) -> nat
    decreases n,
{
    if n <= 1 {
        1
    } else {
        2 * next_pow2((n + 1) / 2)
    }
}

/// `next_pow2` is a power of two between `n` and `2 n`.
pub proof fn lemma_next_pow2_bounds(n: nat)
    ensures
        is_pow2(next_pow2(n)),
        next_pow2(n) >= n,
        next_pow2(n) >= 1,
        n >= 1 ==> next_pow2(n) < 2 * n,
    decreases n,
{
    if n > 1 {
        lemma_next_pow2_bounds((n + 1) / 2);
    }
}

/// The leaves padded with zero leaves to the next power of two.
pub open spec fn pad_spec(s: Seq<u64>) -> Seq<u64> {
    s + Seq::new((next_pow2(s.len()) - s.len()) as nat, |i: int| 0u64)
}

/// The commitment to a leaf set: the root over the zero-padded leaves.
pub open spec fn merkle_root_spec(s: Seq<u64>) -> u64 {
    root_spec(pad_spec(s))
}

/// The least power of two at or above a count.
pub fn next_pow2_exec(n: usize) -> (r: usize)
    requires
        n <= MAX_LEAVES,
    ensures
        r == next_pow2(n as nat),
    decreases n,
{
    proof {
        lemma_next_pow2_bounds(n as nat);
    }
    if n <= 1 {
        1
    } else {
        2 * next_pow2_exec((n + 1) / 2)
    }
}

/// All elements of a row are canonical field representatives.
pub open spec fn all_fe(s: Seq<u64>) -> bool {
    forall|i: int| 0 <= i < s.len() ==> is_fe(#[trigger] s[i])
}

/// The leaves padded with zero leaves to the next power of two.
fn pad_leaves(leaves: &Vec<u64>) -> (p: Vec<u64>)
    requires
        1 <= leaves.len() <= MAX_LEAVES,
    ensures
        p@ == pad_spec(leaves@),
        is_pow2(p@.len() as nat),
        p@.len() <= 2 * MAX_LEAVES,
{
    let target = next_pow2_exec(leaves.len());
    proof {
        lemma_next_pow2_bounds(leaves.len() as nat);
    }
    let mut p: Vec<u64> = Vec::new();
    let mut i: usize = 0;
    while i < leaves.len()
        invariant
            i <= leaves.len(),
            p@ == leaves@.take(i as int),
        decreases leaves.len() - i,
    {
        p.push(leaves[i]);
        proof {
            assert(p@ =~= leaves@.take(i as int + 1));
        }
        i = i + 1;
    }
    proof {
        assert(p@ =~= leaves@);
    }
    while p.len() < target
        invariant
            leaves.len() <= p.len() <= target,
            target == next_pow2(leaves@.len()),
            p@ == leaves@ + Seq::new((p.len() - leaves.len()) as nat, |k: int| 0u64),
        decreases target - p.len(),
    {
        p.push(0u64);
        proof {
            assert(p@ =~= leaves@ + Seq::new((p@.len() - leaves@.len()) as nat, |k: int| 0u64));
        }
    }
    proof {
        assert(p@ =~= pad_spec(leaves@));
    }
    p
}

/// The row above `cur`: adjacent pairs hashed together.
fn build_next_level(cur: &Vec<u64>) -> (next: Vec<u64>)
    requires
        cur.len() >= 2,
    ensures
        next@ == next_level_spec(cur@),
{
    let half = cur.len() / 2;
    let mut next: Vec<u64> = Vec::new();
    let mut j: usize = 0;
    while j < half
        invariant
            j <= half,
            half == cur.len() / 2,
            cur.len() >= 2,
            next@ == next_level_spec(cur@).take(j as int),
        decreases half - j,
    {
        let h = node_hash(cur[2 * j], cur[2 * j + 1]);
        next.push(h);
        proof {
            assert(next@ =~= next_level_spec(cur@).take(j as int + 1));
        }
        j = j + 1;
    }
    proof {
        assert(next@ =~= next_level_spec(cur@));
    }
    next
}

/// Compute the Merkle commitment over field-encoded leaves.
pub fn merkle_root(leaves: &Vec<u64>) -> (r: u64)
    requires
        1 <= leaves.len() <= MAX_LEAVES,
        all_fe(leaves@),
    ensures
        r == merkle_root_spec(leaves@),
        is_fe(r),
{
    let mut cur = pad_leaves(leaves);
    proof {
        assert forall|k: int| 0 <= k < cur@.len() implies is_fe(#[trigger] cur@[k]) by {
            if k < leaves@.len() {
                assert(cur@[k] == leaves@[k]);
            } else {
                assert(cur@[k] == 0u64);
            }
        }
    }
    while cur.len() > 1
        invariant
            1 <= cur.len(),
            is_pow2(cur.len() as nat),
            all_fe(cur@),
            root_spec(cur@) == merkle_root_spec(leaves@),
        decreases cur.len(),
    {
        let next = build_next_level(&cur);
        proof {
            assert forall|k: int| 0 <= k < next@.len() implies is_fe(#[trigger] next@[k]) by {
                lemma_fe_fold_spec_fe(
                    fe_fold_spec(NODE_TAG, FOLD_BASE, cur@[2 * k]),
                    FOLD_BASE,
                    cur@[2 * k + 1],
                );
            }
        }
        cur = next;
    }
    cur[0]
}

/// The order-insensitive field checksum of a row: the sum of its elements.
///
/// This is the scalar accumulator used for auditing a batch of field
/// elements; it is not the tree-node hash.
pub fn hash_field_elements(elements: &Vec<u64>) -> (r: u64)
    requires
        all_fe(elements@),
    ensures
        r == sum_spec(elements@),
        is_fe(r),
{
    let mut acc: u64 = 0;
    let mut i: usize = 0;
    while i < elements.len()
        invariant
            i <= elements.len(),
            all_fe(elements@),
            is_fe(acc),
            acc == sum_spec(elements@.take(i as int)),
        decreases elements.len() - i,
    {
        proof {
            assert(elements@.take(i as int + 1).drop_last() =~= elements@.take(i as int));
        }
        acc = fe_add(acc, elements[i]);
        i = i + 1;
    }
    proof {
        assert(elements@.take(elements@.len() as int) =~= elements@);
    }
    acc
}

/// The field sum of a row.
pub open spec fn sum_spec(s: Seq<u64>) -> u64
    decreases s.len(),
{
    if s.len() == 0 {
        0
    } else {
        fe_add_spec(sum_spec(s.drop_last()), s.last())
    }
}

/// The root recomputed from a leaf along an authentication path.
pub open spec fn path_root_spec(leaf: u64, siblings: Seq<u64>, index: nat) -> u64
    decreases siblings.len(),
{
    if siblings.len() == 0 {
        leaf
    } else {
        let parent = if index % 2 == 1 {
            node_hash_spec(siblings[0], leaf)
        } else {
            node_hash_spec(leaf, siblings[0])
        };
        path_root_spec(parent, siblings.drop_first(), index / 2)
    }
}

/// The authentication path of the leaf at `index`: at every level, the
/// sibling of the node on the way up.
pub open spec fn path_of(s: Seq<u64>, index: nat) -> Seq<u64>
    decreases s.len(),
{
    if s.len() <= 1 {
        Seq::empty()
    } else {
        let sibling = if index % 2 == 1 { s[index as int - 1] } else { s[index as int + 1] };
        seq![sibling] + path_of(next_level_spec(s), index / 2)
    }
}

/// Soundness of inclusion proofs: over a power-of-two row, the path
/// extracted for any leaf recomputes exactly the row's root, so a correctly
/// built inclusion proof always verifies against the commitment.
pub proof fn lemma_inclusion_path_sound(s: Seq<u64>, index: nat)
    requires
        is_pow2(s.len()),
        index < s.len(),
    ensures
        path_root_spec(s[index as int], path_of(s, index), index) == root_spec(s),
    decreases s.len(),
{
    if s.len() == 1 {
        assert(path_of(s, index) =~= Seq::<u64>::empty());
    } else {
        let next = next_level_spec(s);
        let sibling = if index % 2 == 1 { s[index as int - 1] } else { s[index as int + 1] };
        let parent = if index % 2 == 1 {
            node_hash_spec(sibling, s[index as int])
        } else {
            node_hash_spec(s[index as int], sibling)
        };
        assert(next[index as int / 2] == parent);
        assert(path_of(s, index)[0] == sibling);
        assert(path_of(s, index).drop_first() =~= path_of(next, index / 2));
        lemma_inclusion_path_sound(next, index / 2);
    }
}

/// Extract the authentication path of the leaf at `index`, over the
/// zero-padded leaves. Together with `lemma_inclusion_path_sound`, the
/// returned path is guaranteed to verify against the commitment.
pub fn merkle_path(leaves: &Vec<u64>, index: usize) -> (path: Vec<u64>)
    requires
        1 <= leaves.len() <= MAX_LEAVES,
        index < leaves.len(),
    ensures
        path@ == path_of(pad_spec(leaves@), index as nat),
{
    let mut cur = pad_leaves(leaves);
    let mut idx = index;
    let mut path: Vec<u64> = Vec::new();
    proof {
        lemma_next_pow2_bounds(leaves@.len() as nat);
        assert(path@ + path_of(cur@, idx as nat) =~= path_of(pad_spec(leaves@), index as nat));
    }
    while cur.len() > 1
        invariant
            1 <= cur.len(),
            is_pow2(cur.len() as nat),
            idx < cur.len(),
            path@ + path_of(cur@, idx as nat) == path_of(pad_spec(leaves@), index as nat),
        decreases cur.len(),
    {
        let sibling = if idx % 2 == 1 { cur[idx - 1] } else { cur[idx + 1] };
        let next = build_next_level(&cur);
        proof {
            assert(path_of(cur@, idx as nat) == seq![sibling] + path_of(next@, (idx / 2) as nat));
            assert(path@.push(sibling) + path_of(next@, (idx / 2) as nat)
                =~= path@ + path_of(cur@, idx as nat));
        }
        path.push(sibling);
        cur = next;
        idx = idx / 2;
    }
    proof {
        assert(path_of(cur@, idx as nat) =~= Seq::<u64>::empty());
        assert(path@ + Seq::<u64>::empty() =~= path@);
    }
    path
}

/// Check a Merkle inclusion proof: recompute the root from the leaf along
/// the sibling path and compare it with the claimed root.
pub fn verify_merkle_proof(leaf: u64, siblings: &Vec<u64>, root: u64, index: usize) -> (r: bool)
    ensures
        r == (path_root_spec(leaf, siblings@, index as nat) == root),
{
    let mut cur = leaf;
    let mut idx = index;
    let mut i: usize = 0;
    proof {
        assert(siblings@.skip(0) =~= siblings@);
    }
    while i < siblings.len()
        invariant
            i <= siblings.len(),
            path_root_spec(cur, siblings@.skip(i as int), idx as nat)
                == path_root_spec(leaf, siblings@, index as nat),
        decreases siblings.len() - i,
    {
        proof {
            assert(siblings@.skip(i as int).drop_first() =~= siblings@.skip(i as int + 1));
            assert(siblings@.skip(i as int)[0] == siblings@[i as int]);
        }
        if idx % 2 == 1 {
            cur = node_hash(siblings[i], cur);
        } else {
            cur = node_hash(cur, siblings[i]);
        }
        idx = idx / 2;
        i = i + 1;
    }
    proof {
        assert(siblings@.skip(siblings@.len() as int) =~= Seq::<u64>::empty());
    }
    cur == root
}

} // verus!
