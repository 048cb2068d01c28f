use crate::response::Snapshot;
use crate::store::{new_store, store_lifespan, ResponseCache, ResponseStore};
use std::sync::{Arc, Mutex};
use vstd::prelude::*;

verus! {

/// `std::sync::Mutex`, carried opaquely: the store is locked outside the library.
#[verifier::external_type_specification]
#[verifier::external_body]
#[verifier::reject_recursive_types(T)]
pub struct ExMutex<T: ?Sized>(Mutex<T>);

/// Relies on `Mutex::new`: wraps the value, unlocked.
pub assume_specification<T>[ Mutex::<T>::new ](t: T) -> Mutex<T>;

/// The body size limit a new layer starts with: 128 MiB.
pub const DEFAULT_BODY_LIMIT: usize = 128 * 1024 * 1024;

/// Caching configuration bound to one shared store. Every service the layer
/// produces shares that store.
#[derive(Clone)]
#[verifier::reject_recursive_types(C)]
pub struct CacheLayer<C> {
    cache: Arc<Mutex<C>>,
    use_stale: bool,
    limit: usize,
    /// The entries of the store the layer was built over, as they were then.
    initial_entries: Ghost<Map<(Seq<char>, Seq<char>), Snapshot>>,
    /// The lifespan, in nanoseconds, of the store the layer built for itself.
    lifespan: Ghost<Option<nat>>,
}

/// A wrapped handler: the caching configuration of a layer with its shared
/// store, and the handler itself.
#[derive(Clone)]
#[verifier::reject_recursive_types(C)]
pub struct CacheService<S, C> {
    pub inner: S,
    cache: Arc<Mutex<C>>,
    use_stale: bool,
    limit: usize,
}

impl<C: ResponseCache> CacheLayer<C> {
    pub closed spec fn spec_use_stale(&self) -> bool {
        self.use_stale
    }

    pub closed spec fn spec_limit(&self) -> usize {
        self.limit
    }

    pub closed spec fn spec_cache(&self) -> Arc<Mutex<C>> {
        self.cache
    }

    /// The entries of the store the layer was built over, as they were then.
    pub closed spec fn spec_initial_entries(&self) -> Map<(Seq<char>, Seq<char>), Snapshot> {
        self.initial_entries@
    }

    /// The lifespan, in nanoseconds, of a store the layer built itself; `None` for
    /// a store it was given.
    pub closed spec fn spec_lifespan(&self) -> Option<nat> {
        self.lifespan@
    }

    /// A layer over `cache`, with stale fallback off and the default body limit.
    pub fn with(cache: C) -> (r: CacheLayer<C>)
        ensures
            !r.spec_use_stale(),
            r.spec_limit() == DEFAULT_BODY_LIMIT,
            r.spec_initial_entries() == cache.entries(),
            r.spec_lifespan() is None,
    {
        let ghost entries = cache.entries();
        CacheLayer {
            cache: Arc::new(Mutex::new(cache)),
            use_stale: false,
            limit: DEFAULT_BODY_LIMIT,
            initial_entries: Ghost(entries),
            lifespan: Ghost(None),
        }
    }

    /// The same layer, answering with the last stored entry when the handler
    /// fails to refresh a stale one.
    pub fn use_stale_on_failure(self) -> (r: CacheLayer<C>)
        ensures
            r.spec_use_stale(),
            r.spec_limit() == self.spec_limit(),
            r.spec_cache() == self.spec_cache(),
            r.spec_initial_entries() == self.spec_initial_entries(),
            r.spec_lifespan() == self.spec_lifespan(),
    {
        CacheLayer { use_stale: true, ..self }
    }

    /// The same layer with another body size limit; `usize::MAX` lifts it.
    pub fn body_limit(self, new_limit: usize) -> (r: CacheLayer<C>)
        ensures
            r.spec_use_stale() == self.spec_use_stale(),
            r.spec_limit() == new_limit,
            r.spec_cache() == self.spec_cache(),
            r.spec_initial_entries() == self.spec_initial_entries(),
            r.spec_lifespan() == self.spec_lifespan(),
    {
        CacheLayer { limit: new_limit, ..self }
    }

    /// Wraps `inner` with this layer's store and configuration.
    pub fn layer<S>(&self, inner: S) -> (r: CacheService<S, C>)
        ensures
            r.spec_inner() == inner,
            r.spec_use_stale() == self.spec_use_stale(),
            r.spec_limit() == self.spec_limit(),
            r.spec_cache() == self.spec_cache(),
    {
        CacheService { inner, cache: self.cache.clone(), use_stale: self.use_stale, limit: self.limit }
    }
}

impl CacheLayer<ResponseStore> {
    /// A layer over a new time-expiring store whose entries live `ttl_sec`
    /// seconds. A lifespan of zero gives the shortest lifespan the store
    /// accepts, one nanosecond: every entry is stale by the next request.
    pub fn with_lifespan(ttl_sec: u64) -> (r: CacheLayer<ResponseStore>)
        ensures
            !r.spec_use_stale(),
            r.spec_limit() == DEFAULT_BODY_LIMIT,
            forall|k: (Seq<char>, Seq<char>)| !r.spec_initial_entries().contains_key(k),
            r.spec_lifespan() == Some(
                if ttl_sec == 0 {
                    1nat
                } else {
                    ttl_sec as nat * 1_000_000_000
                },
            ),
    {
        let store = if ttl_sec == 0 {
            new_store(0, 1)
        } else {
            new_store(ttl_sec, 0)
        };
        let ghost nanos = store_lifespan(store);
        let layer = CacheLayer::with(store);
        CacheLayer { lifespan: Ghost(Some(nanos)), ..layer }
    }
}

impl<S, C> CacheService<S, C> {
    pub closed spec fn spec_inner(&self) -> S {
        self.inner
    }

    pub closed spec fn spec_use_stale(&self) -> bool {
        self.use_stale
    }

    pub closed spec fn spec_limit(&self) -> usize {
        self.limit
    }

    pub closed spec fn spec_cache(&self) -> Arc<Mutex<C>> {
        self.cache
    }

    /// Whether a failed refresh is answered with the stale entry.
    pub fn uses_stale(&self) -> (r: bool)
        ensures
            r == self.spec_use_stale(),
    {
        self.use_stale
    }

    /// The largest body, in bytes, that is stored.
    pub fn limit(&self) -> (r: usize)
        ensures
            r == self.spec_limit(),
    {
        self.limit
    }

    /// The store shared with the layer and its other services.
    pub fn store(&self) -> (r: &Arc<Mutex<C>>)
        ensures
            *r == self.spec_cache(),
    {
        &self.cache
    }
}

} // verus!
