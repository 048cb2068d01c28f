use std::sync::Arc;
use vstd::prelude::*;

verus! {

/// The protocol version a response was produced with.
#[derive(Clone, Copy, Debug, PartialEq, Eq, Structural)]
pub enum ProtocolVersion {
    Http09,
    Http10,
    Http11,
    Http2,
    Http3,
}

/// The identity of a request for caching purposes: its method token and its full
/// path with query. Nothing else of the request is taken into account.
#[derive(Clone, Debug, PartialEq, Eq, Hash)]
pub struct CacheKey {
    pub method: String,
    pub target: String,
}

impl View for CacheKey {
    type V = (Seq<char>, Seq<char>);

    open spec fn view(&self) -> (Seq<char>, Seq<char>) {
        (self.method@, self.target@)
    }
}

impl CacheKey {
    pub fn new(method: String, target: String) -> (r: CacheKey)
        ensures
            r@ == (method@, target@),
    {
        CacheKey { method, target }
    }

    /// An equal key with buffers of its own.
    pub fn duplicate(&self) -> (r: CacheKey)
        ensures
            r@ == self@,
    {
        CacheKey { method: self.method.clone(), target: self.target.clone() }
    }
}

/// Status line and headers of a response.
#[derive(Clone, Debug)]
pub struct ResponseHead {
    pub status: u16,
    pub version: ProtocolVersion,
    /// Header names with their raw values, in the order they were produced.
    pub headers: Vec<(String, Vec<u8>)>,
}

/// What a response looks like to a reader of the store.
pub struct Snapshot {
    pub status: u16,
    pub version: ProtocolVersion,
    pub headers: Seq<(String, Vec<u8>)>,
    pub body: Seq<u8>,
}

/// A complete successful response, buffered so that it can be emitted again.
///
/// The body is shared: cloning an entry does not copy its bytes.
#[derive(Clone, Debug)]
pub struct CachedResponse {
    status: u16,
    version: ProtocolVersion,
    headers: Arc<Vec<(String, Vec<u8>)>>,
    body: Arc<Vec<u8>>,
}

pub open spec fn snapshot_of(head: ResponseHead, body: Seq<u8>) -> Snapshot {
    Snapshot { status: head.status, version: head.version, headers: head.headers@, body }
}

impl View for CachedResponse {
    type V = Snapshot;

    closed spec fn view(&self) -> Snapshot {
        Snapshot {
            status: self.status,
            version: self.version,
            headers: self.headers@,
            body: self.body@,
        }
    }
}

impl CachedResponse {
    pub fn new(head: ResponseHead, body: Vec<u8>) -> (r: CachedResponse)
        ensures
            r@ == snapshot_of(head, body@),
    {
        CachedResponse {
            status: head.status,
            version: head.version,
            headers: Arc::new(head.headers),
            body: Arc::new(body),
        }
    }

    /// A second handle on the same entry; header and body buffers are shared, not
    /// copied.
    pub fn share(&self) -> (r: CachedResponse)
        ensures
            r@ == self@,
    {
        CachedResponse {
            status: self.status,
            version: self.version,
            headers: self.headers.clone(),
            body: self.body.clone(),
        }
    }

    pub fn status(&self) -> (r: u16)
        ensures
            r == self@.status,
    {
        self.status
    }

    pub fn version(&self) -> (r: ProtocolVersion)
        ensures
            r == self@.version,
    {
        self.version
    }

    pub fn headers(&self) -> (r: &Vec<(String, Vec<u8>)>)
        ensures
            r@ == self@.headers,
    {
        &*self.headers
    }

    pub fn body(&self) -> (r: &Vec<u8>)
        ensures
            r@ == self@.body,
    {
        &*self.body
    }
}

} // verus!
