//! Finding a key in a sequence of keys, the way every table here is searched:
//! the last position that holds the key.

use vstd::prelude::*;

verus! {

/// The last position of `key` in `keys`, if it occurs at all.
pub open spec fn last_index<K>(keys: Seq<K>, key: K) -> Option<int>
    decreases keys.len(),
{
    if keys.len() == 0 {
        None
    } else if keys.last() == key {
        Some(keys.len() - 1)
    } else {
        last_index(keys.drop_last(), key)
    }
}

/// What `last_index` finds is a position of the key with none after it, and
/// it finds nothing only where the key does not occur.
pub proof fn lemma_last_index<K>(keys: Seq<K>, key: K)
    ensures
        match last_index(keys, key) {
            Some(i) => 0 <= i < keys.len() && keys[i] == key && forall|j: int|
                i < j < keys.len() ==> keys[j] != key,
            None => forall|j: int| 0 <= j < keys.len() ==> keys[j] != key,
        },
    decreases keys.len(),
{
    if keys.len() > 0 && keys.last() != key {
        lemma_last_index(keys.drop_last(), key);
        assert forall|j: int| 0 <= j < keys.len() - 1 implies keys[j] == keys.drop_last()[j] by {}
    }
}

/// Appending a key: it is found at the new position, every other key where
/// it was.
pub proof fn lemma_last_index_push<K>(keys: Seq<K>, added: K, key: K)
    ensures
        last_index(keys.push(added), key) == (if added == key {
            Some(keys.len() as int)
        } else {
            last_index(keys, key)
        }),
{
    assert(keys.push(added).drop_last() =~= keys);
}

} // verus!
