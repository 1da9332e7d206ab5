//! Association lists: the first entry with a key is the one that counts.
use vstd::prelude::*;

verus! {

/// The keys of an association list, in order.
pub open spec fn keys_of<T>(entries: Seq<(String, T)>) -> Seq<Seq<char>> {
    entries.map_values(|e: (String, T)| e.0@)
}

/// The index of the first occurrence of `k` in `keys`, or -1.
pub open spec fn index_of_key<K>(keys: Seq<K>, k: K) -> int
    decreases keys.len(),
{
    if keys.len() == 0 {
        -1
    } else {
        let i = index_of_key(keys.drop_last(), k);
        if i >= 0 {
            i
        } else if keys.last() == k {
            keys.len() - 1
        } else {
            -1
        }
    }
}

/// The first occurrence is where the key stands and nowhere before; -1 is
/// returned exactly when the key is absent.
pub proof fn lemma_index_of_key<K>(keys: Seq<K>, k: K)
    ensures
        -1 <= index_of_key(keys, k) < keys.len(),
        index_of_key(keys, k) >= 0 ==> keys[index_of_key(keys, k)] == k,
        forall|j: int| 0 <= j < index_of_key(keys, k) ==> keys[j] != k,
        index_of_key(keys, k) < 0 ==> forall|j: int| 0 <= j < keys.len() ==> keys[j] != k,
    decreases keys.len(),
{
    if keys.len() > 0 {
        lemma_index_of_key(keys.drop_last(), k);
        let i = index_of_key(keys.drop_last(), k);
        assert forall|j: int| 0 <= j < keys.len() - 1 implies keys[j] == keys.drop_last()[j] by {}
    }
}

/// An index that holds the key, with no earlier one, is the first occurrence.
pub proof fn lemma_index_of_key_at<K>(keys: Seq<K>, k: K, i: int)
    requires
        0 <= i < keys.len(),
        keys[i] == k,
        forall|j: int| 0 <= j < i ==> keys[j] != k,
    ensures
        index_of_key(keys, k) == i,
{
    lemma_index_of_key(keys, k);
}

/// A key that no entry holds has index -1.
pub proof fn lemma_index_of_key_absent<K>(keys: Seq<K>, k: K)
    requires
        forall|j: int| 0 <= j < keys.len() ==> keys[j] != k,
    ensures
        index_of_key(keys, k) == -1,
{
    lemma_index_of_key(keys, k);
    if index_of_key(keys, k) >= 0 {
        assert(keys[index_of_key(keys, k)] == k);
    }
}

/// Replacing the entry at the first occurrence of `k` by another with key
/// `k` keeps every key's first occurrence; so does appending `k` when it
/// is absent, which makes the new entry its first occurrence.
pub proof fn lemma_index_after_set<K>(keys: Seq<K>, k: K, other: K)
    ensures
        index_of_key(keys, k) >= 0 ==> index_of_key(keys.update(index_of_key(keys, k), k), other)
            == index_of_key(keys, other),
        index_of_key(keys, k) < 0 ==> index_of_key(keys.push(k), k) == keys.len(),
        index_of_key(keys, k) < 0 && other != k ==> index_of_key(keys.push(k), other)
            == index_of_key(keys, other),
{
    lemma_index_of_key(keys, k);
    lemma_index_of_key(keys, other);
    let i = index_of_key(keys, k);
    if i >= 0 {
        let u = keys.update(i, k);
        let o = index_of_key(keys, other);
        if o >= 0 {
            lemma_index_of_key_at(u, other, o);
        } else {
            lemma_index_of_key_absent(u, other);
        }
    } else {
        let p = keys.push(k);
        lemma_index_of_key_at(p, k, keys.len() as int);
        if other != k {
            let o = index_of_key(keys, other);
            if o >= 0 {
                lemma_index_of_key_at(p, other, o);
            } else {
                lemma_index_of_key_absent(p, other);
            }
        }
    }
}

/// The position of the first entry with key `key`, if any.
pub fn find_key<T>(entries: &Vec<(String, T)>, key: &str) -> (r: Option<usize>)
    ensures
        match r {
            Some(i) => i as int == index_of_key(keys_of(entries@), key@),
            None => index_of_key(keys_of(entries@), key@) < 0,
        },
{
    let wanted = key.to_owned();
    let mut j: usize = 0;
    while j < entries.len()
        invariant
            j <= entries.len(),
            wanted@ == key@,
            forall|l: int| 0 <= l < j ==> keys_of(entries@)[l] != key@,
        decreases entries.len() - j,
    {
        if entries[j].0 == wanted {
            proof {
                lemma_index_of_key_at(keys_of(entries@), key@, j as int);
            }
            return Some(j);
        }
        j = j + 1;
    }
    proof {
        lemma_index_of_key_absent(keys_of(entries@), key@);
    }
    None
}

} // verus!
