//! Response caching for request handlers.
//!
//! A request is identified by its method and its path with query. The decision
//! engine looks the request up in a shared time-expiring store, answers fresh hits
//! from the store, forwards everything else to the wrapped handler, stores only
//! successful responses whose body fits the configured limit, and can fall back on
//! a stale entry when the handler fails.

mod engine;
mod laws;
mod layer;
mod response;
mod store;

pub use engine::{
    body_too_large_message, classify, is_success, lookup, materialize, needs_handler, settle, Lookup,
    Reply, Upstream, BODY_TOO_LARGE_STATUS,
};
pub use layer::{CacheLayer, CacheService, DEFAULT_BODY_LIMIT};
pub use response::{CacheKey, CachedResponse, ProtocolVersion, ResponseHead};
pub use store::{ResponseCache, ResponseStore};
