//! Commitment proofs: evidence that a value is stored under a path in the
//! state that a chain committed to with a 32-byte root.
//!
//! The root is the top of a binary hash tree. A leaf holds one path and its
//! value. The place of a leaf in the tree is fixed by the digest of its path:
//! bit `k` of that digest says on which side the leaf's branch enters the
//! node `k` levels above the leaf. A proof is the list of the sibling digests
//! on the way from the leaf to the root, 32 bytes each, lowest level first.

use vstd::prelude::*;
use vstd::bytes::{spec_u64_to_le_bytes, u64_to_le_bytes};
use vstd::slice::slice_subrange;
use crate::error::ProofError;
use crate::height::Height;

verus! {

broadcast use vstd::array::group_array_axioms;

/// A 32-byte digest.
#[derive(Clone, Copy, Debug, PartialEq, Eq, Hash)]
pub struct Digest {
    pub bytes: [u8; 32],
}

impl View for Digest {
    type V = Seq<u8>;

    open spec fn view(&self) -> Seq<u8> {
        self.bytes@
    }
}

/// Proof bytes together with the height at which they were generated. They
/// mean something only against the consensus state of that height.
#[derive(Debug)]
pub struct CommitmentProof {
    pub bytes: Vec<u8>,
    pub height: Height,
}

/// The Blake2b 256-bit digest of a byte string.
pub uninterp spec fn blake2_256(data: Seq<u8>) -> Seq<u8>;

/// Calls `sp_core::Blake2Hasher::hash`, which returns the Blake2b 256-bit
/// digest of its argument as an `H256`; the 32 bytes inside are handed on.
/// The digest depends on the bytes alone.
#[verifier::external_body]
fn blake2_hash(data: &[u8]) -> (out: [u8; 32])
    ensures
        out@ == blake2_256(data@),
{
    <sp_core::Blake2Hasher as sp_core::Hasher>::hash(data).to_fixed_bytes()
}

/// Appends `bytes` to `buf`.
pub fn append_bytes(buf: &mut Vec<u8>, bytes: &[u8])
    ensures
        final(buf)@ == old(buf)@ + bytes@,
{
    buf.extend_from_slice(bytes);
    assert(buf@ =~= old(buf)@ + bytes@);
}

/// Appends the eight bytes of `x`, lowest first.
pub fn append_u64(buf: &mut Vec<u8>, x: u64)
    ensures
        final(buf)@ == old(buf)@ + spec_u64_to_le_bytes(x),
{
    let le = u64_to_le_bytes(x);
    append_bytes(buf, le.as_slice());
}

impl Digest {
    /// The digest of `data`.
    pub fn of(data: &[u8]) -> (d: Digest)
        ensures
            d@ == blake2_256(data@),
    {
        Digest { bytes: blake2_hash(data) }
    }

    /// Whether two digests hold the same bytes.
    pub fn same(&self, other: &Digest) -> (r: bool)
        ensures
            r == (self@ == other@),
            r == (*self == *other),
    {
        let mut i: usize = 0;
        while i < 32
            invariant
                i <= 32,
                forall|j: int| 0 <= j < i ==> self.bytes@[j] == other.bytes@[j],
            decreases 32 - i,
        {
            if self.bytes[i] != other.bytes[i] {
                return false;
            }
            i += 1;
        }
        assert(self.bytes@ =~= other.bytes@);
        assert(self.bytes =~= other.bytes);
        true
    }

    /// The sequence of bytes as a vector.
    pub fn to_vec(&self) -> (v: Vec<u8>)
        ensures
            v@ == self@,
    {
        let mut v: Vec<u8> = Vec::new();
        append_bytes(&mut v, self.bytes.as_slice());
        v
    }
}

/// Two digests are equal exactly if their bytes are.
pub proof fn lemma_digest_equality(a: Digest, b: Digest)
    ensures
        (a@ == b@) == (a == b),
{
    if a@ == b@ {
        assert(a.bytes =~= b.bytes);
    }
}

/// What is hashed for a leaf: a zero byte, the length of the path, the path
/// and the value.
pub open spec fn leaf_preimage(path: Seq<u8>, value: Seq<u8>) -> Seq<u8> {
    seq![0u8] + spec_u64_to_le_bytes(path.len() as u64) + path + value
}

/// What is hashed for an inner node: a one byte, then its two children.
pub open spec fn node_preimage(left: Seq<u8>, right: Seq<u8>) -> Seq<u8> {
    seq![1u8] + left + right
}

/// Whether the branch of the leaf with path digest `key` is the right child
/// of the node `level + 1` levels above the leaf.
pub open spec fn enters_from_right(key: Seq<u8>, level: int) -> bool {
    key[level / 8] & (1u8 << ((level % 8) as u8)) != 0
}

/// The digest of the node one level up, from the digest below it on the
/// leaf's branch and the digest of the other child.
pub open spec fn climb(key: Seq<u8>, level: int, below: Seq<u8>, sibling: Seq<u8>) -> Seq<u8> {
    if enters_from_right(key, level) {
        blake2_256(node_preimage(sibling, below))
    } else {
        blake2_256(node_preimage(below, sibling))
    }
}

/// The sibling digest that a proof gives for a level.
pub open spec fn sibling_at(proof: Seq<u8>, level: int) -> Seq<u8> {
    proof.subrange(32 * level, 32 * level + 32)
}

/// The digest reached `levels` levels above the leaf.
pub open spec fn digest_above(key: Seq<u8>, leaf: Seq<u8>, proof: Seq<u8>, levels: nat) -> Seq<u8>
    decreases levels,
{
    if levels == 0 {
        leaf
    } else {
        climb(
            key,
            levels - 1,
            digest_above(key, leaf, proof, (levels - 1) as nat),
            sibling_at(proof, levels - 1),
        )
    }
}

/// A proof is a whole number of sibling digests, at most 256 of them.
pub open spec fn well_formed(proof: Seq<u8>) -> bool {
    proof.len() % 32 == 0 && proof.len() / 32 <= 256
}

/// The root that a proof leads to for a path and a value.
pub open spec fn computed_root(proof: Seq<u8>, path: Seq<u8>, value: Seq<u8>) -> Seq<u8> {
    digest_above(
        blake2_256(path),
        blake2_256(leaf_preimage(path, value)),
        proof,
        (proof.len() / 32) as nat,
    )
}

/// The verdict on a proof that `value` is stored under `path` in the state
/// with root `root`.
pub open spec fn membership(root: Seq<u8>, proof: Seq<u8>, path: Seq<u8>, value: Seq<u8>) -> Result<
    (),
    ProofError,
> {
    if !well_formed(proof) {
        Err(ProofError::Malformed { length: proof.len() as usize })
    } else if computed_root(proof, path, value) == root {
        Ok(())
    } else {
        Err(ProofError::VerificationFailed)
    }
}

/// The verdict on a proof that nothing is stored under `path`: in the tree
/// the leaf of such a path holds the empty value.
pub open spec fn non_membership(root: Seq<u8>, proof: Seq<u8>, path: Seq<u8>) -> Result<
    (),
    ProofError,
> {
    membership(root, proof, path, Seq::<u8>::empty())
}

/// The digest of the leaf that holds `value` under `path`.
pub fn leaf_digest(path: &[u8], value: &[u8]) -> (d: Digest)
    ensures
        d@ == blake2_256(leaf_preimage(path@, value@)),
{
    let mut pre: Vec<u8> = Vec::new();
    pre.push(0u8);
    append_u64(&mut pre, path.len() as u64);
    append_bytes(&mut pre, path);
    append_bytes(&mut pre, value);
    assert(pre@ =~= leaf_preimage(path@, value@));
    Digest::of(pre.as_slice())
}

/// The digest of the inner node with the two children `left` and `right`.
pub fn node_digest(left: &Digest, right: &Digest) -> (d: Digest)
    ensures
        d@ == blake2_256(node_preimage(left@, right@)),
{
    let mut pre: Vec<u8> = Vec::new();
    pre.push(1u8);
    append_bytes(&mut pre, left.bytes.as_slice());
    append_bytes(&mut pre, right.bytes.as_slice());
    assert(pre@ =~= node_preimage(left@, right@));
    Digest::of(pre.as_slice())
}

/// The digest of a path, which fixes the place of its leaf.
pub fn path_digest(path: &[u8]) -> (d: Digest)
    ensures
        d@ == blake2_256(path@),
{
    Digest::of(path)
}

/// Whether the branch of the leaf with path digest `key` enters the node
/// `level + 1` levels above the leaf from the right.
pub fn branch_is_right(key: &Digest, level: usize) -> (r: bool)
    requires
        level < 256,
    ensures
        r == enters_from_right(key@, level as int),
{
    let shift: u8 = (level % 8) as u8;
    assert(shift < 8);
    let mask: u8 = 1u8 << shift;
    key.bytes[level / 8] & mask != 0
}

/// Checks a proof that `value` is stored under `path` in the state with root
/// `root`.
pub fn verify_membership(root: &Digest, proof: &[u8], path: &[u8], value: &[u8]) -> (r: Result<
    (),
    ProofError,
>)
    ensures
        r == membership(root@, proof@, path@, value@),
{
    let n = proof.len();
    if n % 32 != 0 || n / 32 > 256 {
        return Err(ProofError::Malformed { length: n });
    }
    let key = path_digest(path);
    let leaf = leaf_digest(path, value);
    let levels = n / 32;
    let mut acc = leaf;
    let mut level: usize = 0;
    while level < levels
        invariant
            level <= levels <= 256,
            n == proof@.len(),
            n == 32 * levels,
            acc@ == digest_above(key@, leaf@, proof@, level as nat),
        decreases levels - level,
    {
        let sibling_bytes = slice_subrange(proof, 32 * level, 32 * level + 32);
        let mut sibling = Digest { bytes: [0u8; 32] };
        let mut i: usize = 0;
        while i < 32
            invariant
                i <= 32,
                sibling_bytes@.len() == 32,
                forall|j: int| 0 <= j < i ==> sibling.bytes@[j] == sibling_bytes@[j],
            decreases 32 - i,
        {
            sibling.bytes[i] = sibling_bytes[i];
            i += 1;
        }
        assert(sibling@ =~= sibling_at(proof@, level as int));
        acc = if branch_is_right(&key, level) {
            node_digest(&sibling, &acc)
        } else {
            node_digest(&acc, &sibling)
        };
        level += 1;
    }
    if acc.same(root) {
        Ok(())
    } else {
        Err(ProofError::VerificationFailed)
    }
}

/// Checks a proof that nothing is stored under `path` in the state with root
/// `root`.
pub fn verify_non_membership(root: &Digest, proof: &[u8], path: &[u8]) -> (r: Result<
    (),
    ProofError,
>)
    ensures
        r == non_membership(root@, proof@, path@),
{
    let empty: Vec<u8> = Vec::new();
    verify_membership(root, proof, path, empty.as_slice())
}

/// Two different byte strings with the same digest exist.
pub open spec fn hash_collision() -> bool {
    exists|a: Seq<u8>, b: Seq<u8>| a != b && #[trigger] blake2_256(a) == #[trigger] blake2_256(b)
}

proof fn lemma_node_preimage_parts(l1: Seq<u8>, r1: Seq<u8>, l2: Seq<u8>, r2: Seq<u8>)
    requires
        node_preimage(l1, r1) == node_preimage(l2, r2),
        l1.len() == l2.len() || r1.len() == r2.len(),
    ensures
        l1 == l2,
        r1 == r2,
{
    let p = node_preimage(l1, r1);
    let q = node_preimage(l2, r2);
    assert(p.len() == 1 + l1.len() + r1.len());
    assert(q.len() == 1 + l2.len() + r2.len());
    assert(l1.len() == l2.len());
    assert forall|i: int| 0 <= i < l1.len() implies l1[i] == l2[i] by {
        assert(p[1 + i] == l1[i]);
        assert(q[1 + i] == l2[i]);
    }
    assert(l1 =~= l2);
    assert forall|i: int| 0 <= i < r1.len() implies r1[i] == r2[i] by {
        assert(p[1 + l1.len() + i] == r1[i]);
        assert(q[1 + l2.len() + i] == r2[i]);
    }
    assert(r1 =~= r2);
}

proof fn lemma_distinct_siblings_collide(
    key: Seq<u8>,
    leaf: Seq<u8>,
    p: Seq<u8>,
    q: Seq<u8>,
    levels: nat,
)
    requires
        32 * levels <= p.len(),
        32 * levels <= q.len(),
        p.subrange(0, 32 * (levels as int)) != q.subrange(0, 32 * (levels as int)),
        digest_above(key, leaf, p, levels) == digest_above(key, leaf, q, levels),
    ensures
        hash_collision(),
    decreases levels,
{
    if levels == 0 {
        assert(p.subrange(0, 0) =~= q.subrange(0, 0));
    } else {
        let k = (levels - 1) as nat;
        let a = digest_above(key, leaf, p, k);
        let b = digest_above(key, leaf, q, k);
        let x = sibling_at(p, k as int);
        let y = sibling_at(q, k as int);
        assert(x.len() == 32 && y.len() == 32);
        let right = enters_from_right(key, k as int);
        let pre_p = if right {
            node_preimage(x, a)
        } else {
            node_preimage(a, x)
        };
        let pre_q = if right {
            node_preimage(y, b)
        } else {
            node_preimage(b, y)
        };
        assert(blake2_256(pre_p) == digest_above(key, leaf, p, levels));
        assert(blake2_256(pre_q) == digest_above(key, leaf, q, levels));
        if pre_p != pre_q {
            assert(hash_collision());
        } else {
            if right {
                lemma_node_preimage_parts(x, a, y, b);
            } else {
                lemma_node_preimage_parts(a, x, b, y);
            }
            assert(x == y && a == b);
            if p.subrange(0, 32 * (k as int)) == q.subrange(0, 32 * (k as int)) {
                let ps = p.subrange(0, 32 * (levels as int));
                let qs = q.subrange(0, 32 * (levels as int));
                assert forall|i: int| 0 <= i < 32 * levels implies ps[i] == qs[i] by {
                    if i < 32 * k {
                        assert(p.subrange(0, 32 * (k as int))[i] == p[i]);
                        assert(q.subrange(0, 32 * (k as int))[i] == q[i]);
                    } else {
                        assert(x[i - 32 * k] == p[i]);
                        assert(y[i - 32 * k] == q[i]);
                    }
                }
                assert(ps =~= qs);
            }
            lemma_distinct_siblings_collide(key, leaf, p, q, k);
        }
    }
}

/// A proof that was accepted is no longer accepted once any of its bytes
/// is changed: the changed proof is rejected as failing verification, unless
/// two different byte strings with the same Blake2b digest exist.
pub proof fn lemma_tampered_proof_rejected(
    root: Seq<u8>,
    proof: Seq<u8>,
    tampered: Seq<u8>,
    path: Seq<u8>,
    value: Seq<u8>,
)
    requires
        membership(root, proof, path, value).is_ok(),
        tampered.len() == proof.len(),
        tampered != proof,
    ensures
        membership(root, tampered, path, value) == Err::<(), ProofError>(
            ProofError::VerificationFailed,
        ) || hash_collision(),
{
    if computed_root(tampered, path, value) == root {
        let levels = (proof.len() / 32) as nat;
        assert(proof.subrange(0, 32 * (levels as int)) =~= proof);
        assert(tampered.subrange(0, 32 * (levels as int)) =~= tampered);
        lemma_distinct_siblings_collide(
            blake2_256(path),
            blake2_256(leaf_preimage(path, value)),
            proof,
            tampered,
            levels,
        );
    }
}

} // verus!
