use vstd::prelude::*;

verus! {

/// The Keccak-256 digest of the concatenation of `parts`.
pub uninterp spec fn keccak_hashv(parts: Seq<Seq<u8>>) -> Seq<u8>;

/// The byte strings that a list of slices holds.
pub open spec fn parts_of(parts: Seq<&[u8]>) -> Seq<Seq<u8>> {
    parts.map_values(|p: &[u8]| p@)
}

/// Calls `anchor_lang::solana_program::keccak::hashv`, which feeds the slices of `parts`
/// in order to one Keccak-256 hasher and returns the 32 bytes of its digest. The digest
/// is a function of the bytes alone; nothing else is claimed of it.
#[verifier::external_body]
fn hashv(parts: &[&[u8]]) -> (digest: [u8; 32])
    ensures
        digest@ == keccak_hashv(parts_of(parts@)),
{
    anchor_lang::solana_program::keccak::hashv(parts).0
}

/// The hash of a leaf: the digest of a zero byte followed by the serialized value.
pub open spec fn leaf_hash(serialized: Seq<u8>) -> Seq<u8> {
    keccak_hashv(seq![seq![0u8], serialized])
}

/// `a` comes before `b` in the order of byte strings, or equals it.
pub open spec fn bytes_le(a: Seq<u8>, b: Seq<u8>) -> bool {
    a == b || exists|k: int|
        0 <= k < a.len() && k < b.len() && a[k] < b[k] && a.take(k) == b.take(k)
}

/// The hash of an inner node: the digest of a one byte followed by the two children, the
/// smaller child first.
pub open spec fn node_hash(node: Seq<u8>, sibling: Seq<u8>) -> Seq<u8> {
    if bytes_le(node, sibling) {
        keccak_hashv(seq![seq![1u8], node, sibling])
    } else {
        keccak_hashv(seq![seq![1u8], sibling, node])
    }
}

/// The root that a leaf and the siblings on its path lead to.
pub open spec fn merkle_root(path: Seq<Seq<u8>>, leaf: Seq<u8>) -> Seq<u8>
    decreases path.len(),
{
    if path.len() == 0 {
        leaf
    } else {
        node_hash(merkle_root(path.drop_last(), leaf), path.last())
    }
}

/// Whether two 32-byte values are the same.
pub fn keys_equal(a: &[u8; 32], b: &[u8; 32]) -> (same: bool)
    ensures
        same == (*a == *b),
        same == (a@ == b@),
{
    let mut i: usize = 0;
    while i < 32
        invariant
            i <= 32,
            forall|j: int| 0 <= j < i ==> a[j] == b[j],
        decreases 32 - i,
    {
        if a[i] != b[i] {
            return false;
        }
        i += 1;
    }
    assert(*a =~= *b);
    true
}

/// Whether `a` comes before `b` in the order of byte strings, or equals it.
pub fn hash_le(a: &[u8; 32], b: &[u8; 32]) -> (le: bool)
    ensures
        le == bytes_le(a@, b@),
{
    let mut i: usize = 0;
    while i < 32
        invariant
            i <= 32,
            forall|j: int| 0 <= j < i ==> a[j] == b[j],
        decreases 32 - i,
    {
        if a[i] != b[i] {
            let le = a[i] < b[i];
            proof {
                assert(a@.take(i as int) =~= b@.take(i as int));
                if !le {
                    assert(a@ != b@);
                    assert forall|k: int|
                        0 <= k < a@.len() && k < b@.len() && a@[k] < b@[k] implies a@.take(k)
                        != b@.take(k) by {
                        if k < i {
                            assert(a@[k] == b@[k]);
                        } else if k > i {
                            assert(a@.take(k)[i as int] == a@[i as int]);
                            assert(b@.take(k)[i as int] == b@[i as int]);
                        }
                    }
                }
            }
            return le;
        }
        i += 1;
    }
    assert(a@ =~= b@);
    true
}

/// Computes the hash of a leaf from its serialized value.
pub fn hash_leaf(serialized: &Vec<u8>) -> (digest: [u8; 32])
    ensures
        digest@ == leaf_hash(serialized@),
{
    let tag: [u8; 1] = [0u8];
    let parts: [&[u8]; 2] = [tag.as_slice(), serialized.as_slice()];
    let digest = hashv(parts.as_slice());
    proof {
        assert(tag@ =~= seq![0u8]);
        assert(parts@[0]@ == tag@);
        assert(parts@[1]@ == serialized@);
        assert(parts_of(parts@) =~= seq![seq![0u8], serialized@]);
    }
    digest
}

/// Computes the hash of the node above `node` and `sibling`.
pub fn hash_node(node: &[u8; 32], sibling: &[u8; 32]) -> (digest: [u8; 32])
    ensures
        digest@ == node_hash(node@, sibling@),
{
    let tag: [u8; 1] = [1u8];
    let node_first = hash_le(node, sibling);
    let parts: [&[u8]; 3] = if node_first {
        [tag.as_slice(), node.as_slice(), sibling.as_slice()]
    } else {
        [tag.as_slice(), sibling.as_slice(), node.as_slice()]
    };
    let digest = hashv(parts.as_slice());
    proof {
        assert(tag@ =~= seq![1u8]);
        assert(parts@[0]@ == tag@);
        if node_first {
            assert(parts@[1]@ == node@);
            assert(parts@[2]@ == sibling@);
            assert(parts_of(parts@) =~= seq![seq![1u8], node@, sibling@]);
        } else {
            assert(parts@[1]@ == sibling@);
            assert(parts@[2]@ == node@);
            assert(parts_of(parts@) =~= seq![seq![1u8], sibling@, node@]);
        }
    }
    digest
}

/// Checks an inclusion proof: folds the siblings of `path` into `leaf`, from the leaf
/// upwards, and compares what comes out with `root`.
pub fn verify(path: &Vec<[u8; 32]>, root: &[u8; 32], leaf: [u8; 32]) -> (valid: bool)
    ensures
        valid == (merkle_root(path.deep_view(), leaf@) == root@),
{
    let mut computed_hash = leaf;
    let mut i: usize = 0;
    proof {
        assert(path.deep_view().take(0) =~= Seq::<Seq<u8>>::empty());
    }
    while i < path.len()
        invariant
            i <= path.len(),
            computed_hash@ == merkle_root(path.deep_view().take(i as int), leaf@),
        decreases path.len() - i,
    {
        proof {
            let longer = path.deep_view().take(i + 1);
            assert(longer.drop_last() =~= path.deep_view().take(i as int));
            assert(longer.last() == path[i as int]@);
        }
        computed_hash = hash_node(&computed_hash, &path[i]);
        i += 1;
    }
    proof {
        assert(path.deep_view().take(path.len() as int) =~= path.deep_view());
    }
    keys_equal(&computed_hash, root)
}

} // verus!
