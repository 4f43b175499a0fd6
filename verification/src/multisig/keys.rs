//! Ed25519 public keys and their byte-wise order.
use vstd::prelude::*;

verus! {

/// An Ed25519 public key.
pub type PublicKey = [u8; 32];

/// `a` comes before `b` in lexicographic byte order: at the first byte where
/// they differ, `a`'s is smaller.
pub open spec fn key_lt(a: PublicKey, b: PublicKey) -> bool {
    exists|i: int|
        #![trigger a@[i], b@[i]]
        0 <= i < 32 && a@[i] < b@[i] && forall|j: int| 0 <= j < i ==> a@[j] == b@[j]
}

/// Each key comes strictly before the next one.
pub open spec fn strictly_ascending(keys: Seq<PublicKey>) -> bool {
    forall|i: int| 1 <= i < keys.len() ==> key_lt(#[trigger] keys[i - 1], keys[i])
}

/// No key occurs twice.
pub open spec fn distinct(keys: Seq<PublicKey>) -> bool {
    forall|i: int, j: int| 0 <= i < j < keys.len() ==> #[trigger] keys[i] != #[trigger] keys[j]
}

/// Whether `a` comes strictly before `b` in byte order.
pub fn key_less(a: &PublicKey, b: &PublicKey) -> (r: bool)
    ensures
        r == key_lt(*a, *b),
{
    let mut i: usize = 0;
    while i < 32
        invariant
            0 <= i <= 32,
            forall|j: int| 0 <= j < i ==> a@[j] == b@[j],
        decreases 32 - i,
    {
        if a[i] != b[i] {
            let r = a[i] < b[i];
            proof {
                if !r {
                    assert forall|k: int|
                        0 <= k < 32 && #[trigger] a@[k] < #[trigger] b@[k] implies !(forall|j: int|
                        0 <= j < k ==> a@[j] == b@[j]) by {
                        if k < i {
                        } else if k == i {
                        } else {
                            assert(a@[i as int] != b@[i as int]);
                        }
                    }
                }
            }
            return r;
        }
        i = i + 1;
    }
    proof {
        assert forall|k: int| 0 <= k < 32 implies !(#[trigger] a@[k] < #[trigger] b@[k]) by {
            assert(a@[k] == b@[k]);
        }
    }
    false
}

/// Whether two keys are the same.
pub fn key_eq(a: &PublicKey, b: &PublicKey) -> (r: bool)
    ensures
        r == (*a == *b),
{
    crate::address::bytes32_eq(a, b)
}

/// The byte order is irreflexive.
pub proof fn lemma_key_lt_irreflexive(a: PublicKey)
    ensures
        !key_lt(a, a),
{
}

/// The byte order is transitive.
pub proof fn lemma_key_lt_transitive(a: PublicKey, b: PublicKey, c: PublicKey)
    requires
        key_lt(a, b),
        key_lt(b, c),
    ensures
        key_lt(a, c),
{
    let i = choose|i: int|
        #![trigger a@[i], b@[i]]
        0 <= i < 32 && a@[i] < b@[i] && forall|j: int| 0 <= j < i ==> a@[j] == b@[j];
    let k = choose|k: int|
        #![trigger b@[k], c@[k]]
        0 <= k < 32 && b@[k] < c@[k] && forall|j: int| 0 <= j < k ==> b@[j] == c@[j];
    if i < k {
        assert(a@[i] < c@[i]);
        assert(forall|j: int| 0 <= j < i ==> a@[j] == c@[j]);
    } else if k < i {
        assert(a@[k] < c@[k]);
        assert(forall|j: int| 0 <= j < k ==> a@[j] == c@[j]);
    } else {
        assert(a@[i] < c@[i]);
        assert(forall|j: int| 0 <= j < i ==> a@[j] == c@[j]);
    }
}

/// In a strictly ascending list every earlier key comes before every later one.
pub proof fn lemma_ascending_ordered(keys: Seq<PublicKey>, i: int, j: int)
    requires
        strictly_ascending(keys),
        0 <= i < j < keys.len(),
    ensures
        key_lt(keys[i], keys[j]),
    decreases j - i,
{
    if j == i + 1 {
        assert(key_lt(keys[j - 1], keys[j]));
    } else {
        lemma_ascending_ordered(keys, i, j - 1);
        assert(key_lt(keys[j - 1], keys[j]));
        lemma_key_lt_transitive(keys[i], keys[j - 1], keys[j]);
    }
}

/// A strictly ascending list holds no key twice.
pub proof fn lemma_ascending_distinct(keys: Seq<PublicKey>)
    requires
        strictly_ascending(keys),
    ensures
        distinct(keys),
{
    assert forall|i: int, j: int| 0 <= i < j < keys.len() implies #[trigger] keys[i]
        != #[trigger] keys[j] by {
        lemma_ascending_ordered(keys, i, j);
        if keys[i] == keys[j] {
            lemma_key_lt_irreflexive(keys[i]);
        }
    }
}

} // verus!
