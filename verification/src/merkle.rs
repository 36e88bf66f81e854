//! The Merkle root of an ordered list of transaction ids.

use vstd::prelude::*;
use crate::hashing::{sha256, sha256_digest, DIGEST_LEN};
use crate::transactions::copy_bytes;

verus! {

/// The hash of a pair: the SHA-256 of the left bytes followed by the right.
pub open spec fn pair_hash(left: Seq<u8>, right: Seq<u8>) -> Seq<u8> {
    sha256_digest(left + right)
}

/// The level above `level`: the hashes of its consecutive pairs, from the
/// left; where the count is odd, the last hash is paired with itself.
pub open spec fn merkle_parents(level: Seq<Seq<u8>>) -> Seq<Seq<u8>> {
    Seq::new(
        ((level.len() + 1) / 2) as nat,
        |i: int|
            pair_hash(
                level[2 * i],
                if 2 * i + 1 < level.len() {
                    level[2 * i + 1]
                } else {
                    level[2 * i]
                },
            ),
    )
}

/// The Merkle root of `ids`: nothing for no id, the id itself for one, and
/// else the root of the level above.
pub open spec fn merkle_root(ids: Seq<Seq<u8>>) -> Seq<u8>
    decreases ids.len(),
{
    if ids.len() == 0 {
        Seq::empty()
    } else if ids.len() == 1 {
        ids[0]
    } else {
        merkle_root(merkle_parents(ids))
    }
}

/// The byte strings that a list of vectors holds.
pub open spec fn byte_strings(list: Seq<Vec<u8>>) -> Seq<Seq<u8>> {
    Seq::new(list.len(), |i: int| list[i]@)
}

/// Computes the Merkle root of the ids in `hash_list`, in their order.
///
/// The root is computed anew from the whole list on every call.
pub fn get_merkle_root(hash_list: &Vec<Vec<u8>>) -> (root: Vec<u8>)
    ensures
        root@ == merkle_root(byte_strings(hash_list@)),
        hash_list@.len() >= 2 ==> root@.len() == DIGEST_LEN,
    decreases hash_list@.len(),
{
    let count = hash_list.len();
    if count == 0 {
        return Vec::new();
    }
    if count == 1 {
        return copy_bytes(hash_list[0].as_slice());
    }
    let ghost ids = byte_strings(hash_list@);
    let pairs: usize = count / 2 + count % 2;
    let mut parents: Vec<Vec<u8>> = Vec::new();
    let mut k: usize = 0;
    while k < pairs
        invariant
            k <= pairs,
            count == hash_list@.len(),
            pairs == (count + 1) / 2,
            ids == byte_strings(hash_list@),
            parents@.len() == k,
            forall|j: int| 0 <= j < k ==> (#[trigger] parents@[j])@ == merkle_parents(ids)[j],
            forall|j: int| 0 <= j < k ==> (#[trigger] parents@[j])@.len() == DIGEST_LEN,
        decreases pairs - k,
    {
        let left: usize = 2 * k;
        let right: usize = if count - left >= 2 {
            left + 1
        } else {
            left
        };
        let mut joined: Vec<u8> = copy_bytes(hash_list[left].as_slice());
        joined.extend_from_slice(hash_list[right].as_slice());
        assert(joined@ =~= ids[left as int] + ids[right as int]);
        let parent = sha256(joined.as_slice());
        parents.push(parent);
        k = k + 1;
    }
    assert(byte_strings(parents@) =~= merkle_parents(ids));
    get_merkle_root(&parents)
}

/// The root of a single id is that id.
pub proof fn lemma_root_of_one(id: Seq<u8>)
    ensures
        merkle_root(seq![id]) == id,
{
}

/// The root of two ids is the hash of the pair.
pub proof fn lemma_root_of_two(h1: Seq<u8>, h2: Seq<u8>)
    ensures
        merkle_root(seq![h1, h2]) == pair_hash(h1, h2),
{
    let ids = seq![h1, h2];
    assert(merkle_parents(ids) =~= seq![pair_hash(h1, h2)]);
    reveal_with_fuel(merkle_root, 2);
}

/// The root of four ids is the hash of the hashes of the two pairs.
pub proof fn lemma_root_of_four(h1: Seq<u8>, h2: Seq<u8>, h3: Seq<u8>, h4: Seq<u8>)
    ensures
        merkle_root(seq![h1, h2, h3, h4]) == pair_hash(pair_hash(h1, h2), pair_hash(h3, h4)),
{
    let ids = seq![h1, h2, h3, h4];
    assert(merkle_parents(ids) =~= seq![pair_hash(h1, h2), pair_hash(h3, h4)]);
    lemma_root_of_two(pair_hash(h1, h2), pair_hash(h3, h4));
}

/// The root of three ids pairs the third with itself.
pub proof fn lemma_root_of_three(h1: Seq<u8>, h2: Seq<u8>, h3: Seq<u8>)
    ensures
        merkle_root(seq![h1, h2, h3]) == pair_hash(pair_hash(h1, h2), pair_hash(h3, h3)),
{
    let ids = seq![h1, h2, h3];
    assert(merkle_parents(ids) =~= seq![pair_hash(h1, h2), pair_hash(h3, h3)]);
    lemma_root_of_two(pair_hash(h1, h2), pair_hash(h3, h3));
}

/// Whether two different inputs have the same SHA-256 digest.
pub open spec fn sha256_collision(first: Seq<u8>, second: Seq<u8>) -> bool {
    first != second && sha256_digest(first) == sha256_digest(second)
}

/// The root depends on the order of the ids: with the first two of four ids
/// exchanged the root is another, unless the exchange leaves the first pair's
/// bytes as they were or SHA-256 collides on the way up.
pub proof fn lemma_root_is_order_sensitive(h1: Seq<u8>, h2: Seq<u8>, h3: Seq<u8>, h4: Seq<u8>)
    requires
        h1 + h2 != h2 + h1,
        !sha256_collision(h1 + h2, h2 + h1),
        !sha256_collision(
            pair_hash(h1, h2) + pair_hash(h3, h4),
            pair_hash(h2, h1) + pair_hash(h3, h4),
        ),
    ensures
        merkle_root(seq![h2, h1, h3, h4]) != merkle_root(seq![h1, h2, h3, h4]),
{
    lemma_root_of_four(h1, h2, h3, h4);
    lemma_root_of_four(h2, h1, h3, h4);
    let straight = pair_hash(h1, h2) + pair_hash(h3, h4);
    let swapped = pair_hash(h2, h1) + pair_hash(h3, h4);
    if straight == swapped {
        lemma_concat_left_injective(pair_hash(h1, h2), pair_hash(h2, h1), pair_hash(h3, h4));
    }
}

/// Two byte strings that give the same whole with the same tail are equal.
pub proof fn lemma_concat_left_injective(first: Seq<u8>, second: Seq<u8>, tail: Seq<u8>)
    requires
        first + tail == second + tail,
    ensures
        first == second,
{
    let whole = first + tail;
    assert(whole.len() == first.len() + tail.len());
    assert(whole.len() == (second + tail).len());
    assert(first.len() == second.len());
    assert forall|i: int| 0 <= i < first.len() implies first[i] == second[i] by {
        assert(whole[i] == first[i]);
        assert((second + tail)[i] == second[i]);
    }
    assert(first =~= second);
}

} // verus!
