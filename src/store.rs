use crate::response::{CacheKey, CachedResponse, Snapshot};
use cached::stores::TtlCache;
use cached::{Cached, CloneCached};
use vstd::prelude::*;

verus! {

/// `cached::stores::TtlCache`, the time-expiring store; what it holds is seen
/// through `stored_responses`.
#[verifier::external_type_specification]
#[verifier::external_body]
#[verifier::reject_recursive_types(K)]
#[verifier::reject_recursive_types(V)]
#[verifier::reject_recursive_types(S)]
pub struct ExTtlCache<K, V, S>(TtlCache<K, V, S>);

/// The store shared by every request of a layer.
pub type ResponseStore = TtlCache<CacheKey, CachedResponse>;

/// The entries a store physically holds, expired or not.
pub uninterp spec fn stored_responses(c: ResponseStore) -> Map<(Seq<char>, Seq<char>), Snapshot>;

/// The lifespan, in nanoseconds, that a store gives each entry it stores.
pub uninterp spec fn store_lifespan(c: ResponseStore) -> nat;

/// Relies on `TtlCache::new` and `Duration::new`: a new store, whose entries live
/// `secs` seconds and `nanos` nanoseconds, holds nothing. `TtlCache::new` panics on
/// a zero lifespan and `Duration::new` when `nanos` carries into `secs`; `requires`
/// leaves both out.
#[verifier::external_body]
pub(crate) fn new_store(secs: u64, nanos: u32) -> (r: ResponseStore)
    requires
        secs > 0 || nanos > 0,
        nanos < 1_000_000_000,
    ensures
        forall|k: (Seq<char>, Seq<char>)| !stored_responses(r).contains_key(k),
        store_lifespan(r) == secs as nat * 1_000_000_000 + nanos as nat,
{
    TtlCache::new(std::time::Duration::new(secs, nanos))
}

/// A store of responses keyed by request: it reports an entry together with
/// whether its lifespan is over, and inserts and removes entries.
pub trait ResponseCache {
    /// The entries the store physically holds, expired or not.
    spec fn entries(&self) -> Map<(Seq<char>, Seq<char>), Snapshot>;

    /// The entry for `key`, if any, and whether its lifespan is over; the entries
    /// stay as they are.
    fn get_with_expiry(&mut self, key: &CacheKey) -> (r: (Option<CachedResponse>, bool))
        ensures
            final(self).entries() == old(self).entries(),
            r.0 is None ==> !old(self).entries().contains_key(key@) && !r.1,
            r.0 matches Some(v) ==> old(self).entries().contains_key(key@) && old(self).entries()[key@]
                == v@,
    ;

    /// Inserts or overwrites the entry for `key`, starting its lifespan anew.
    fn store_entry(&mut self, key: CacheKey, value: CachedResponse)
        ensures
            final(self).entries() == old(self).entries().insert(key@, value@),
    ;

    /// Removes the entry for `key`, if any.
    fn evict_entry(&mut self, key: &CacheKey)
        ensures
            final(self).entries() == old(self).entries().remove(key@),
    ;
}

impl ResponseCache for ResponseStore {
    open spec fn entries(&self) -> Map<(Seq<char>, Seq<char>), Snapshot> {
        stored_responses(*self)
    }

    fn get_with_expiry(&mut self, key: &CacheKey) -> (r: (Option<CachedResponse>, bool)) {
        ttl_get_with_expiry(self, key)
    }

    fn store_entry(&mut self, key: CacheKey, value: CachedResponse) {
        ttl_store_entry(self, key, value)
    }

    fn evict_entry(&mut self, key: &CacheKey) {
        ttl_evict_entry(self, key)
    }
}

/// Relies on `CloneCached::cache_get_with_expiry_status` of `TtlCache`: it hands out
/// a clone of the stored value, whether it has expired or not, leaves the entries
/// in place, and reports `(None, false)` for an absent key. Whether an entry has
/// expired depends on the clock.
#[verifier::external_body]
fn ttl_get_with_expiry(store: &mut ResponseStore, key: &CacheKey) -> (r: (
    Option<CachedResponse>,
    bool,
))
    ensures
        stored_responses(*final(store)) == stored_responses(*old(store)),
        r.0 is None ==> !stored_responses(*old(store)).contains_key(key@) && !r.1,
        r.0 matches Some(v) ==> stored_responses(*old(store)).contains_key(key@)
            && stored_responses(*old(store))[key@] == v@,
{
    store.cache_get_with_expiry_status(key)
}

/// Relies on `Cached::cache_set` of `TtlCache`: inserts or overwrites the entry and
/// starts its lifespan anew.
#[verifier::external_body]
fn ttl_store_entry(store: &mut ResponseStore, key: CacheKey, value: CachedResponse)
    ensures
        stored_responses(*final(store)) == stored_responses(*old(store)).insert(key@, value@),
{
    store.cache_set(key, value);
}

/// Relies on `Cached::cache_remove` of `TtlCache`: takes the entry out, expired or
/// not; nothing happens for an absent key.
#[verifier::external_body]
fn ttl_evict_entry(store: &mut ResponseStore, key: &CacheKey)
    ensures
        stored_responses(*final(store)) == stored_responses(*old(store)).remove(key@),
{
    store.cache_remove(key);
}

} // verus!
