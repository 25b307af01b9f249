//! The bounded cache of recently seen block identities, read-only here.
use vstd::prelude::*;

use lru::LruCache;

verus! {

/// The identity of one block as last observed: its number and its hash.
#[derive(Clone, Copy, Debug, PartialEq, Eq)]
pub struct BlockMeta {
    pub number: u64,
    pub hash: [u8; 32],
}

#[verifier::external_type_specification]
#[verifier::external_body]
#[verifier::reject_recursive_types(K)]
#[verifier::reject_recursive_types(V)]
#[verifier::reject_recursive_types(S)]
pub struct ExLruCache<K, V, S>(LruCache<K, V, S>);

#[verifier::external_type_specification]
#[verifier::external_body]
pub struct ExDefaultHasher(lru::DefaultHasher);

/// The entries that a block cache holds, by block number.
pub uninterp spec fn cache_entries(c: LruCache<u64, BlockMeta>) -> Map<u64, BlockMeta>;

/// Whether `entries` is finite and has `n` keys.
pub open spec fn holds_entries(entries: Map<u64, BlockMeta>, n: nat) -> bool {
    entries.dom().finite() && entries.len() == n
}

/// Relies on `LruCache::len`: the number of entries in the cache, which
/// holds finitely many.
#[verifier::external_body]
pub(crate) fn cache_len(c: &LruCache<u64, BlockMeta>) -> (r: usize)
    ensures
        holds_entries(cache_entries(*c), r as nat),
{
    c.len()
}

/// Relies on `LruCache::peek`: the entry under a key, if there is one, with
/// no change to the cache. Only the hash of the entry is handed out.
#[verifier::external_body]
pub(crate) fn cached_hash(c: &LruCache<u64, BlockMeta>, block: u64) -> (r: Option<[u8; 32]>)
    ensures
        r == (if cache_entries(*c).contains_key(block) {
            Some(cache_entries(*c)[block].hash)
        } else {
            None::<[u8; 32]>
        }),
{
    c.peek(&block).map(|m| m.hash)
}

} // verus!
