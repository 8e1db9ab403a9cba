//! Maps from stream identifiers or task numbers, as the rest of the library sees them.
//!
//! What is said of the operations on maps are statements about [`nohash_hasher::IntMap`] that are
//! believed, not proved. Such a map is a hash map of the standard library that uses the keys as their
//! hashes; its view is the mathematical map it stands for. The order in which it is walked is left
//! open.

use nohash_hasher::{IntMap, IsEnabled};
use std::hash::Hash;
use vstd::prelude::*;

verus! {

#[verifier::external_type_specification]
#[verifier::external_body]
#[verifier::reject_recursive_types(T)]
pub struct ExNoHashHasher<T>(nohash_hasher::NoHashHasher<T>);

#[verifier::external_type_specification]
#[verifier::external_body]
#[verifier::reject_recursive_types(H)]
pub struct ExBuildHasherDefault<H>(std::hash::BuildHasherDefault<H>);

/// The keys of maps: numbers that are used as their own hashes. There are no others than these two
/// types, whose `==` and hash tell the numbers apart.
pub(crate) trait Key: Copy + Eq + Hash {}

impl Key for u32 {}

impl Key for usize {}

/// `IntMap::default` has no entries.
#[verifier::external_body]
pub(crate) fn new_map<K: Key, V>() -> (m: IntMap<K, V>)
    ensures
        (m@ == Map::<K, V>::empty()),
{
    IntMap::default()
}

/// `IntMap::len` is the number of entries.
#[verifier::external_body]
pub(crate) fn len_of<K: Key, V>(m: &IntMap<K, V>) -> (n: usize)
    ensures
        n == m@.len(),
{
    m.len()
}

/// `IntMap::contains_key` tells if the key has an entry.
#[verifier::external_body]
pub(crate) fn contains_key<K: Key + IsEnabled, V>(m: &IntMap<K, V>, k: K) -> (r: bool)
    ensures
        r == m@.contains_key(k),
{
    m.contains_key(&k)
}

/// `IntMap::get` is the value of the key, if it has an entry.
#[verifier::external_body]
pub(crate) fn get<K: Key + IsEnabled, V>(m: &IntMap<K, V>, k: K) -> (r: Option<&V>)
    ensures
        r is Some <==> m@.contains_key(k),
        r matches Some(v) ==> *v == m@[k],
{
    m.get(&k)
}

/// `IntMap::get_mut` is the value of the key, if it has an entry: what is written to it is the value
/// of the key afterwards.
#[verifier::external_body]
pub(crate) fn get_mut<K: Key + IsEnabled, V>(m: &mut IntMap<K, V>, k: K) -> (r: Option<&mut V>)
    ensures
        r is Some <==> old(m)@.contains_key(k),
        r is None ==> final(m)@ == old(m)@,
        r matches Some(v) ==> *v == old(m)@[k] && final(m)@ == old(m)@.insert(k, *final(v)),
{
    m.get_mut(&k)
}

/// `IntMap::insert` gives the key a new value, and hands out the old one if it had one.
#[verifier::external_body]
pub(crate) fn insert<K: Key + IsEnabled, V>(m: &mut IntMap<K, V>, k: K, v: V) -> (r: Option<V>)
    ensures
        final(m)@ == old(m)@.insert(k, v),
        r is Some <==> old(m)@.contains_key(k),
        r matches Some(x) ==> x == old(m)@[k],
{
    m.insert(k, v)
}

/// `IntMap::remove` takes the entry of the key out, if it has one.
#[verifier::external_body]
pub(crate) fn remove<K: Key + IsEnabled, V>(m: &mut IntMap<K, V>, k: K) -> (r: Option<V>)
    ensures
        final(m)@ == old(m)@.remove(k),
        r is Some <==> old(m)@.contains_key(k),
        r matches Some(x) ==> x == old(m)@[k],
{
    m.remove(&k)
}

/// `IntMap::keys` hands out each key that has an entry, once, in some order.
#[verifier::external_body]
pub(crate) fn keys_of<K: Key, V>(m: &IntMap<K, V>) -> (r: Vec<K>)
    ensures
        r@.no_duplicates(),
        forall|k: K| #[trigger] r@.contains(k) <==> m@.contains_key(k),
{
    m.keys().copied().collect()
}

/// How far a walk over the `keys` of a map has come, on which entries are kept or taken out.
///
/// The map was `m` at the beginning and is `now`. The entries of the first `i` keys were visited: those
/// whose key is one to `keep` are still there, and the others were `taken`.
pub open spec fn walked<K, V>(
    keys: Seq<K>,
    m: Map<K, V>,
    keep: spec_fn(K) -> bool,
    i: int,
    now: Map<K, V>,
    taken: Seq<K>,
) -> bool {
    &&& 0 <= i <= keys.len()
    &&& keys.no_duplicates()
    &&& forall|k: K| #[trigger] keys.contains(k) <==> m.contains_key(k)
    &&& forall|k: K| #[trigger] now.contains_key(k) ==> m.contains_key(k) && now[k] == m[k]
    &&& forall|j: int| 0 <= j < i ==> (now.contains_key(#[trigger] keys[j]) <==> keep(keys[j]))
    &&& forall|j: int| i <= j < keys.len() ==> now.contains_key(#[trigger] keys[j])
    &&& taken.no_duplicates()
    &&& forall|j: int|
        0 <= j < taken.len() ==> m.contains_key(#[trigger] taken[j]) && !now.contains_key(taken[j])
    &&& forall|j: int| 0 <= j < i && !keep(#[trigger] keys[j]) ==> taken.contains(keys[j])
}

/// A walk begins with nothing taken.
pub(crate) proof fn lemma_walk_begins<K, V>(
    keys: Seq<K>,
    m: Map<K, V>,
    keep: spec_fn(K) -> bool,
)
    requires
        keys.no_duplicates(),
        forall|k: K| #[trigger] keys.contains(k) <==> m.contains_key(k),
    ensures
        walked(keys, m, keep, 0, m, Seq::empty()),
{
    assert forall|j: int| 0 <= j < keys.len() implies m.contains_key(#[trigger] keys[j]) by {
        assert(keys.contains(keys[j]));
    }
}

/// A walk goes on to the next key: its entry is there, and is kept or taken.
pub(crate) proof fn lemma_walk_goes_on<K, V>(
    keys: Seq<K>,
    m: Map<K, V>,
    keep: spec_fn(K) -> bool,
    i: int,
    now: Map<K, V>,
    taken: Seq<K>,
)
    requires
        walked(keys, m, keep, i, now, taken),
        i < keys.len(),
    ensures
        now.contains_key(keys[i]) && now[keys[i]] == m[keys[i]],
        if keep(keys[i]) {
            walked(keys, m, keep, i + 1, now, taken)
        } else {
            walked(keys, m, keep, i + 1, now.remove(keys[i]), taken.push(keys[i]))
        },
{
    let k = keys[i];
    if !keep(k) {
        assert forall|j: int| 0 <= j < i + 1 && !keep(#[trigger] keys[j]) implies taken.push(
            k,
        ).contains(keys[j]) by {
            if j < i {
                let a = choose|a: int| 0 <= a < taken.len() && taken[a] == keys[j];
                assert(taken.push(k)[a] == keys[j]);
            } else {
                assert(taken.push(k)[taken.len() as int] == k);
            }
        }
    }
}

/// In the end, the entries to keep are there, and all others were taken, each once.
pub(crate) proof fn lemma_walk_ends<K, V>(
    keys: Seq<K>,
    m: Map<K, V>,
    keep: spec_fn(K) -> bool,
    now: Map<K, V>,
    taken: Seq<K>,
)
    requires
        walked(keys, m, keep, keys.len() as int, now, taken),
    ensures
        forall|k: K| #[trigger] now.contains_key(k) <==> m.contains_key(k) && keep(k),
        forall|k: K| m.contains_key(k) && !keep(k) ==> #[trigger] taken.contains(k),
{
    assert forall|k: K| m.contains_key(k) implies #[trigger] now.contains_key(k) == keep(k) && (!keep(
        k,
    ) ==> taken.contains(k)) by {
        assert(keys.contains(k));
        let j = choose|j: int| 0 <= j < keys.len() && keys[j] == k;
        assert(keys[j] == k);
    }
    assert forall|k: K| m.contains_key(k) && !keep(k) implies #[trigger] taken.contains(k) by {
        assert(!now.contains_key(k));
    }
}

} // verus!
