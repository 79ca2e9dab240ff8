//! Trusted bindings to the `lru_cache` crate, which backs the prepared
//! statement cache.
//!
//! The cache's contents are modelled by the uninterpreted function
//! [`lru_entries`]: the key-value pairs in least- to most-recently-used
//! order, each value a (statement slot, statement-type code) pair. The
//! configured capacity is modelled by [`lru_capacity`]. Every wrapper below
//! states, over those two names, what `lru_cache`'s source shows for the
//! one method its body calls.

use vstd::prelude::*;

verus! {

/// The concrete instantiation used by the statement cache: keyed by the
/// exact SQL text, holding (arena slot, statement-type code).
pub type RawLru = lru_cache::LruCache<String, (usize, u64)>;

#[verifier::external_type_specification]
#[verifier::external_body]
#[verifier::reject_recursive_types(K)]
#[verifier::reject_recursive_types(V)]
#[verifier::reject_recursive_types(S)]
pub struct ExLruCache<K: core::cmp::Eq + core::hash::Hash, V, S: core::hash::BuildHasher>(
    lru_cache::LruCache<K, V, S>,
);

/// One modelled cache pair: (key, statement slot, statement-type code).
pub type LruPair = (Seq<char>, usize, u64);

/// What the cache holds, in least- to most-recently-used order.
pub uninterp spec fn lru_entries(c: RawLru) -> Seq<LruPair>;

/// The capacity the cache was created with.
pub uninterp spec fn lru_capacity(c: RawLru) -> nat;

/// No two modelled pairs share a key.
pub open spec fn lru_keys_distinct(m: Seq<LruPair>) -> bool {
    forall|i: int, j: int| 0 <= i < j < m.len() ==> (#[trigger] m[i]).0 != (#[trigger] m[j]).0
}

/// Whether some modelled pair has the key `k`.
pub open spec fn lru_has_key(m: Seq<LruPair>, k: Seq<char>) -> bool {
    exists|i: int| 0 <= i < m.len() && (#[trigger] m[i]).0 == k
}

/// The index of the pair with key `k`.
pub open spec fn lru_index_of(m: Seq<LruPair>, k: Seq<char>) -> int {
    choose|i: int| 0 <= i < m.len() && (#[trigger] m[i]).0 == k
}

/// Relies on `LruCache::new`: the cache starts empty, with the given
/// capacity.
#[verifier::external_body]
pub(crate) fn lru_new(capacity: usize) -> (r: RawLru)
    ensures
        lru_entries(r) == Seq::<LruPair>::empty(),
        lru_capacity(r) == capacity as nat,
{
    lru_cache::LruCache::new(capacity)
}

/// Relies on `LruCache::len`: the number of key-value pairs held.
#[verifier::external_body]
pub(crate) fn lru_len(c: &RawLru) -> (r: usize)
    ensures
        r as nat == lru_entries(*c).len(),
{
    c.len()
}

/// Relies on `LruCache::remove` (`LinkedHashMap::remove`): removes the pair
/// with the given key, if any, returning its value; the order of the other
/// pairs is unchanged.
#[verifier::external_body]
pub(crate) fn lru_remove(c: &mut RawLru, k: &String) -> (r: Option<(usize, u64)>)
    requires
        lru_keys_distinct(lru_entries(*old(c))),
    ensures
        lru_capacity(*final(c)) == lru_capacity(*old(c)),
        lru_has_key(lru_entries(*old(c)), k@) ==> {
            let i = lru_index_of(lru_entries(*old(c)), k@);
            &&& r == Some((lru_entries(*old(c))[i].1, lru_entries(*old(c))[i].2))
            &&& lru_entries(*final(c)) == lru_entries(*old(c)).remove(i)
        },
        !lru_has_key(lru_entries(*old(c)), k@) ==> r is None && lru_entries(*final(c))
            == lru_entries(*old(c)),
{
    c.remove(k)
}

/// Relies on `LruCache::insert` (`LinkedHashMap::insert`): a pair with an
/// absent key is attached at the most-recently-used end. The caller keeps
/// the cache strictly below capacity, so the silent eviction `LruCache`
/// performs when overfull cannot trigger, and no old value comes back.
#[verifier::external_body]
pub(crate) fn lru_insert(c: &mut RawLru, k: String, v: (usize, u64))
    requires
        !lru_has_key(lru_entries(*old(c)), k@),
        lru_entries(*old(c)).len() < lru_capacity(*old(c)),
    ensures
        lru_capacity(*final(c)) == lru_capacity(*old(c)),
        lru_entries(*final(c)) == lru_entries(*old(c)).push((k@, v.0, v.1)),
{
    let _ = c.insert(k, v);
}

/// Relies on `LruCache::remove_lru` (`LinkedHashMap::pop_front`): removes
/// and returns the least-recently-used pair, or `None` if the cache is
/// empty.
#[verifier::external_body]
pub(crate) fn lru_remove_lru(c: &mut RawLru) -> (r: Option<(String, (usize, u64))>)
    ensures
        lru_capacity(*final(c)) == lru_capacity(*old(c)),
        lru_entries(*old(c)).len() > 0 ==> {
            let front = lru_entries(*old(c))[0];
            &&& r matches Some(kv) && kv.0@ == front.0 && kv.1 == (front.1, front.2)
            &&& lru_entries(*final(c)) == lru_entries(*old(c)).drop_first()
        },
        lru_entries(*old(c)).len() == 0 ==> r is None && lru_entries(*final(c)) == lru_entries(
            *old(c),
        ),
{
    c.remove_lru()
}

} // verus!
