//! Binary Merkle tree over 32-byte leaves. A lone node at the end of a level
//! is combined with itself; every internal node is `H(left ∥ right, DOMAIN_MERKLE)`.

use vstd::prelude::*;
use vstd::string::StringSliceAdditionalSpecFns;
use crate::common::errors::{Result, ZKMTDError};
use crate::utils::constants::DOMAIN_MERKLE;
use crate::utils::hash::{combine_hashes, constant_time_eq_fixed, poseidon_digest, poseidon_hash, HashDigest};

verus! {

/// An internal node: `H(left ∥ right, DOMAIN_MERKLE)`.
pub open spec fn merkle_combine(left: Seq<u8>, right: Seq<u8>) -> Seq<u8> {
    poseidon_digest(left + right, DOMAIN_MERKLE.spec_bytes())
}

/// The partner of node `i` in `level`: its neighbour (`i XOR 1`), or itself
/// when that neighbour does not exist.
pub open spec fn sibling(level: Seq<Seq<u8>>, i: int) -> Seq<u8> {
    if i % 2 == 0 {
        if i + 1 < level.len() {
            level[i + 1]
        } else {
            level[i]
        }
    } else {
        level[i - 1]
    }
}

/// The level above `level`.
pub open spec fn next_level(level: Seq<Seq<u8>>) -> Seq<Seq<u8>> {
    Seq::new(
        ((level.len() + 1) / 2) as nat,
        |j: int| merkle_combine(level[2 * j], sibling(level, 2 * j)),
    )
}

/// The root of the tree whose bottom level is `level`.
pub open spec fn root_of(level: Seq<Seq<u8>>) -> Seq<u8>
    decreases level.len(),
{
    if level.len() <= 1 {
        level[0]
    } else {
        root_of(next_level(level))
    }
}

/// The siblings met on the way from node `i` of `level` up to the root.
pub open spec fn merkle_siblings(level: Seq<Seq<u8>>, i: int) -> Seq<Seq<u8>>
    decreases level.len(),
{
    if level.len() <= 1 {
        Seq::empty()
    } else {
        seq![sibling(level, i)] + merkle_siblings(next_level(level), i / 2)
    }
}

/// The root reached from `node` at position `index` by combining it with
/// each sibling in turn, on the side that the index's low bit picks.
pub open spec fn path_root(node: Seq<u8>, index: nat, siblings: Seq<Seq<u8>>) -> Seq<u8>
    decreases siblings.len(),
{
    if siblings.len() == 0 {
        node
    } else {
        let up = if index % 2 == 0 {
            merkle_combine(node, siblings[0])
        } else {
            merkle_combine(siblings[0], node)
        };
        path_root(up, index / 2, siblings.drop_first())
    }
}

/// The byte views of a sequence of digests.
pub open spec fn digests_view(v: Seq<HashDigest>) -> Seq<Seq<u8>> {
    v.map_values(|d: HashDigest| d@)
}

/// Every leaf's path leads to the root: walking `merkle_siblings(leaves, i)`
/// from leaf `i` yields `root_of(leaves)`.
pub proof fn lemma_merkle_round_trip(leaves: Seq<Seq<u8>>, i: int)
    requires
        0 <= i < leaves.len(),
    ensures
        path_root(leaves[i], i as nat, merkle_siblings(leaves, i)) == root_of(leaves),
    decreases leaves.len(),
{
    if leaves.len() > 1 {
        let next = next_level(leaves);
        let sibs = merkle_siblings(leaves, i);
        let rest = merkle_siblings(next, i / 2);
        assert(sibs.drop_first() =~= rest);
        if i % 2 == 0 {
            assert(next[i / 2] == merkle_combine(leaves[i], sibling(leaves, i)));
        } else {
            assert(2 * (i / 2) == i - 1);
            assert(next[i / 2] == merkle_combine(leaves[i - 1], sibling(leaves, i - 1)));
            assert(sibling(leaves, i - 1) == leaves[i]);
        }
        lemma_merkle_round_trip(next, i / 2);
    }
}

fn copy_digests(v: &Vec<HashDigest>) -> (r: Vec<HashDigest>)
    ensures
        r@ == v@,
{
    let mut out: Vec<HashDigest> = Vec::new();
    let mut i: usize = 0;
    while i < v.len()
        invariant
            i <= v@.len(),
            out@ == v@.subrange(0, i as int),
        decreases v@.len() - i,
    {
        out.push(v[i]);
        assert(out@ =~= v@.subrange(0, i as int + 1));
        i = i + 1;
    }
    assert(v@.subrange(0, v@.len() as int) =~= v@);
    out
}

/// A Merkle tree with all of its levels, bottom first.
#[derive(Debug, Clone)]
pub struct MerkleTree {
    leaves: Vec<HashDigest>,
    levels: Vec<Vec<HashDigest>>,
    root: HashDigest,
}

impl MerkleTree {
    pub closed spec fn spec_leaves(&self) -> Seq<HashDigest> {
        self.leaves@
    }

    pub closed spec fn spec_root(&self) -> HashDigest {
        self.root
    }

    /// Level 0 is the leaves, each level is the one below combined, the top
    /// level is the single root.
    pub closed spec fn wf(&self) -> bool {
        let n = self.levels@.len();
        &&& n >= 1
        &&& self.leaves@.len() >= 1
        &&& self.levels@[0]@ == self.leaves@
        &&& forall|k: int|
            0 <= k < n - 1 ==> digests_view(#[trigger] self.levels@[k + 1]@) == next_level(
                digests_view(self.levels@[k]@),
            ) && self.levels@[k]@.len() > 1
        &&& self.levels@[n - 1]@.len() == 1
        &&& self.root == self.levels@[n - 1]@[0]
    }

    proof fn lemma_root_from(&self, k: int)
        requires
            self.wf(),
            0 <= k < self.levels@.len(),
        ensures
            root_of(digests_view(self.levels@[k]@)) == self.root@,
        decreases self.levels@.len() - k,
    {
        let n = self.levels@.len();
        if k == n - 1 {
        } else {
            assert(digests_view(self.levels@[k + 1]@) == next_level(
                digests_view(self.levels@[k]@),
            ));
            self.lemma_root_from(k + 1);
        }
    }

    /// Builds the tree; fails on an empty leaf list.
    pub fn new(leaves: Vec<HashDigest>) -> (r: Result<Self>)
        ensures
            leaves@.len() == 0 <==> r is Err,
            r is Err ==> r->Err_0 is MerkleError,
            r is Ok ==> {
                &&& r->Ok_0.wf()
                &&& r->Ok_0.spec_leaves() == leaves@
                &&& r->Ok_0.spec_root()@ == root_of(digests_view(leaves@))
            },
    {
        if leaves.len() == 0 {
            return Err(ZKMTDError::MerkleError { reason: "Leaves are empty".to_owned() });
        }
        let mut levels: Vec<Vec<HashDigest>> = Vec::new();
        let mut current: Vec<HashDigest> = copy_digests(&leaves);
        levels.push(copy_digests(&leaves));
        while current.len() > 1
            invariant
                levels@.len() >= 1,
                current@.len() >= 1,
                levels@[0]@ == leaves@,
                levels@[levels@.len() - 1]@ == current@,
                forall|k: int|
                    0 <= k < levels@.len() - 1 ==> digests_view(#[trigger] levels@[k + 1]@)
                        == next_level(digests_view(levels@[k]@)) && levels@[k]@.len() > 1,
            decreases current@.len(),
        {
            let len = current.len();
            let mut next: Vec<HashDigest> = Vec::new();
            let half = len / 2 + len % 2;
            let mut j: usize = 0;
            while j < half
                invariant
                    len == current@.len(),
                    len > 1,
                    half == (len + 1) / 2,
                    j <= half,
                    next@.len() == j,
                    forall|t: int|
                        0 <= t < next@.len() ==> (#[trigger] next@[t])@ == next_level(
                            digests_view(current@),
                        )[t],
                decreases half - j,
            {
                let i = 2 * j;
                if i + 1 < len {
                    let c = combine_hashes(&current[i], &current[i + 1], DOMAIN_MERKLE.as_bytes());
                    next.push(c);
                } else {
                    let c = combine_hashes(&current[i], &current[i], DOMAIN_MERKLE.as_bytes());
                    next.push(c);
                }
                j = j + 1;
            }
            assert(digests_view(next@) =~= next_level(digests_view(current@)));
            let ghost prev_levels = levels@;
            levels.push(copy_digests(&next));
            assert forall|k: int| 0 <= k < levels@.len() - 1 implies digests_view(
                #[trigger] levels@[k + 1]@,
            ) == next_level(digests_view(levels@[k]@)) && levels@[k]@.len() > 1 by {
                if k < prev_levels.len() - 1 {
                    assert(levels@[k + 1] == prev_levels[k + 1]);
                    assert(levels@[k] == prev_levels[k]);
                }
            }
            current = next;
        }
        let root = current[0];
        let tree = MerkleTree { leaves, levels, root };
        proof {
            tree.lemma_root_from(0);
        }
        Ok(tree)
    }

    pub fn root(&self) -> (r: &HashDigest)
        ensures
            *r == self.spec_root(),
    {
        &self.root
    }

    pub fn num_leaves(&self) -> (r: usize)
        ensures
            r == self.spec_leaves().len(),
    {
        self.leaves.len()
    }

    pub fn leaves(&self) -> (r: &[HashDigest])
        ensures
            r@ == self.spec_leaves(),
    {
        self.leaves.as_slice()
    }

    /// The inclusion path of leaf `index`; fails when the index is out of range.
    pub fn get_proof(&self, index: usize) -> (r: Result<MerklePath>)
        requires
            self.wf(),
        ensures
            index < self.spec_leaves().len() <==> r is Ok,
            r is Err ==> r->Err_0 is MerkleError,
            r is Ok ==> {
                &&& r->Ok_0.leaf_index == index
                &&& r->Ok_0.root == self.spec_root()
                &&& digests_view(r->Ok_0.siblings@) == merkle_siblings(
                    digests_view(self.spec_leaves()),
                    index as int,
                )
            },
    {
        if index >= self.leaves.len() {
            return Err(ZKMTDError::MerkleError { reason: "Invalid index".to_owned() });
        }
        let n = self.levels.len();
        let mut siblings: Vec<HashDigest> = Vec::new();
        let mut current_index = index;
        let mut level_idx: usize = 0;
        while level_idx + 1 < n
            invariant
                self.wf(),
                n == self.levels@.len(),
                level_idx < n,
                current_index < self.levels@[level_idx as int]@.len(),
                digests_view(siblings@) + merkle_siblings(
                    digests_view(self.levels@[level_idx as int]@),
                    current_index as int,
                ) == merkle_siblings(digests_view(self.spec_leaves()), index as int),
            decreases n - level_idx,
        {
            let level = &self.levels[level_idx];
            let ghost lv = digests_view(level@);
            assert(digests_view(self.levels@[level_idx + 1]@) == next_level(lv));
            let sib = if current_index % 2 == 0 {
                if current_index + 1 < level.len() {
                    level[current_index + 1]
                } else {
                    level[current_index]
                }
            } else {
                level[current_index - 1]
            };
            assert(sib@ == sibling(lv, current_index as int));
            let ghost before = siblings@;
            siblings.push(sib);
            proof {
                assert(digests_view(siblings@) =~= digests_view(before).push(sib@));
                let rest = merkle_siblings(next_level(lv), current_index as int / 2);
                assert(merkle_siblings(lv, current_index as int) == seq![sibling(lv, current_index as int)] + rest);
                assert(digests_view(before).push(sib@) + rest =~= digests_view(before) + (seq![sib@] + rest));
            }
            current_index = current_index / 2;
            level_idx = level_idx + 1;
        }
        proof {
            let lv = digests_view(self.levels@[level_idx as int]@);
            assert(merkle_siblings(lv, current_index as int) =~= Seq::<Seq<u8>>::empty());
            assert(digests_view(siblings@) + Seq::<Seq<u8>>::empty() =~= digests_view(siblings@));
            assert(self.levels@[0]@ == self.leaves@);
        }
        Ok(MerklePath { leaf_index: index, siblings, root: self.root })
    }
}

/// An inclusion path: the leaf's index, its siblings bottom-up, and the root
/// it was issued against.
#[derive(Debug, Clone)]
pub struct MerklePath {
    pub leaf_index: usize,
    pub siblings: Vec<HashDigest>,
    pub root: HashDigest,
}

impl MerklePath {
    /// The root that this path yields for `leaf`.
    pub fn compute_root(&self, leaf: &HashDigest) -> (r: HashDigest)
        ensures
            r@ == path_root(leaf@, self.leaf_index as nat, digests_view(self.siblings@)),
    {
        let mut current: HashDigest = *leaf;
        let mut current_index = self.leaf_index;
        let n = self.siblings.len();
        let mut i: usize = 0;
        assert(digests_view(self.siblings@).subrange(0, n as int) =~= digests_view(self.siblings@));
        while i < n
            invariant
                n == self.siblings@.len(),
                i <= n,
                path_root(
                    current@,
                    current_index as nat,
                    digests_view(self.siblings@).subrange(i as int, n as int),
                ) == path_root(leaf@, self.leaf_index as nat, digests_view(self.siblings@)),
            decreases n - i,
        {
            let ghost rest = digests_view(self.siblings@).subrange(i as int, n as int);
            assert(rest.drop_first() =~= digests_view(self.siblings@).subrange(i + 1, n as int));
            let sib = &self.siblings[i];
            current = if current_index % 2 == 0 {
                combine_hashes(&current, sib, DOMAIN_MERKLE.as_bytes())
            } else {
                combine_hashes(sib, &current, DOMAIN_MERKLE.as_bytes())
            };
            current_index = current_index / 2;
            i = i + 1;
        }
        assert(digests_view(self.siblings@).subrange(n as int, n as int) =~= Seq::<Seq<u8>>::empty());
        assert(digests_view(self.siblings@).subrange(0, n as int) =~= digests_view(self.siblings@));
        current
    }

    /// Whether `leaf` leads to `expected_root` (from a trusted anchor); the
    /// final comparison runs in constant time.
    pub fn verify_against(&self, leaf: &HashDigest, expected_root: &HashDigest) -> (r: bool)
        ensures
            r == (path_root(leaf@, self.leaf_index as nat, digests_view(self.siblings@))
                == expected_root@),
    {
        let computed = self.compute_root(leaf);
        constant_time_eq_fixed(&computed, expected_root)
    }

    /// Whether `leaf` leads to the root carried by the path itself; only
    /// meaningful for paths that this library built.
    pub fn verify(&self, leaf: &HashDigest) -> (r: bool)
        ensures
            r == (path_root(leaf@, self.leaf_index as nat, digests_view(self.siblings@))
                == self.root@),
    {
        self.verify_against(leaf, &self.root)
    }

    pub fn len(&self) -> (r: usize)
        ensures
            r == self.siblings@.len(),
    {
        self.siblings.len()
    }

    pub fn is_empty(&self) -> (r: bool)
        ensures
            r == (self.siblings@.len() == 0),
    {
        self.siblings.len() == 0
    }
}

/// `H(data, DOMAIN_MERKLE)`: the leaf for a piece of data.
pub fn hash_leaf(data: &[u8]) -> (r: HashDigest)
    ensures
        r@ == poseidon_digest(data@, DOMAIN_MERKLE.spec_bytes()),
{
    poseidon_hash(data, DOMAIN_MERKLE.as_bytes())
}

} // verus!
