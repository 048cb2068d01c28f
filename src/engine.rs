use crate::response::{snapshot_of, CacheKey, CachedResponse, ResponseHead, Snapshot};
use crate::store::ResponseCache;
use vstd::prelude::*;
use vstd::string::StringSliceAdditionalSpecFns;

verus! {

/// Status of the response synthesized when a body does not fit the limit.
pub const BODY_TOO_LARGE_STATUS: u16 = 500;

/// What the store said about a request before the handler is considered.
pub enum Lookup {
    /// A live entry: it answers the request and the handler is not called.
    Fresh(CachedResponse),
    /// An entry whose lifespan is over; it has been put back in the store to
    /// mark it as being refreshed, and the handler is called.
    Stale(CachedResponse),
    /// No entry: the handler is called.
    Miss,
}

/// What the wrapped handler produced, as far as the engine needs it.
pub enum Upstream {
    /// A response in the success range: its head, and its body if it could be
    /// read within the limit (`None` when it could not).
    Succeeded(ResponseHead, Option<Vec<u8>>),
    /// Any other status; the response itself stays with the caller.
    Failed,
}

/// How a forwarded request is answered.
pub enum Reply {
    /// Answer with this entry.
    Entry(CachedResponse),
    /// Answer with the handler's own response, unchanged.
    PassThrough,
    /// Answer with a synthesized response: status and body.
    Synthesized(u16, Vec<u8>),
}

pub enum LookupModel {
    Fresh(Snapshot),
    Stale(Snapshot),
    Miss,
}

pub enum UpstreamModel {
    Succeeded(ResponseHead, Option<Seq<u8>>),
    Failed,
}

pub enum ReplyModel {
    Entry(Snapshot),
    PassThrough,
    Synthesized(u16, Seq<u8>),
}

impl View for Lookup {
    type V = LookupModel;

    open spec fn view(&self) -> LookupModel {
        match self {
            Lookup::Fresh(v) => LookupModel::Fresh(v@),
            Lookup::Stale(v) => LookupModel::Stale(v@),
            Lookup::Miss => LookupModel::Miss,
        }
    }
}

impl View for Upstream {
    type V = UpstreamModel;

    open spec fn view(&self) -> UpstreamModel {
        match self {
            Upstream::Succeeded(head, Some(body)) => UpstreamModel::Succeeded(*head, Some(body@)),
            Upstream::Succeeded(head, None) => UpstreamModel::Succeeded(*head, None),
            Upstream::Failed => UpstreamModel::Failed,
        }
    }
}

impl View for Reply {
    type V = ReplyModel;

    open spec fn view(&self) -> ReplyModel {
        match self {
            Reply::Entry(v) => ReplyModel::Entry(v@),
            Reply::PassThrough => ReplyModel::PassThrough,
            Reply::Synthesized(status, body) => ReplyModel::Synthesized(*status, body@),
        }
    }
}

pub open spec fn is_success_status(status: u16) -> bool {
    200 <= status <= 299
}

/// The decimal digits of `n`, most significant first.
pub open spec fn decimal(n: nat) -> Seq<u8>
    decreases n,
{
    if n < 10 {
        seq![(48 + n) as u8]
    } else {
        decimal(n / 10).push((48 + n % 10) as u8)
    }
}

/// The body of the response that replaces one whose body is over `limit` bytes.
pub open spec fn too_large_message(limit: nat) -> Seq<u8> {
    "File too big, over ".spec_bytes() + decimal(limit) + " bytes".spec_bytes()
}

/// How a lookup of `key` may leave the store: `before` is what it held, `after`
/// what it holds once the lookup is done.
pub open spec fn lookup_spec(
    before: Map<(Seq<char>, Seq<char>), Snapshot>,
    key: (Seq<char>, Seq<char>),
    l: LookupModel,
    after: Map<(Seq<char>, Seq<char>), Snapshot>,
) -> bool {
    match l {
        LookupModel::Fresh(v) => before.contains_key(key) && before[key] == v && after == before,
        LookupModel::Stale(v) => before.contains_key(key) && before[key] == v && after
            == before.insert(key, v),
        LookupModel::Miss => !before.contains_key(key) && after == before,
    }
}

/// Whether the wrapped handler is called after this lookup.
pub open spec fn forwards(l: LookupModel) -> bool {
    !(l is Fresh)
}

pub open spec fn body_fits(body: Option<Seq<u8>>, limit: nat) -> bool {
    body matches Some(b) && b.len() <= limit
}

/// The answer to a forwarded request.
pub open spec fn reply_spec(l: LookupModel, up: UpstreamModel, use_stale: bool, limit: nat) -> ReplyModel {
    match up {
        UpstreamModel::Succeeded(head, body) => if body_fits(body, limit) {
            ReplyModel::Entry(snapshot_of(head, body.unwrap()))
        } else {
            ReplyModel::Synthesized(BODY_TOO_LARGE_STATUS, too_large_message(limit))
        },
        UpstreamModel::Failed => match l {
            LookupModel::Stale(v) => if use_stale {
                ReplyModel::Entry(v)
            } else {
                ReplyModel::PassThrough
            },
            _ => ReplyModel::PassThrough,
        },
    }
}

/// The store once a forwarded request is settled.
pub open spec fn settled_store(
    m: Map<(Seq<char>, Seq<char>), Snapshot>,
    key: (Seq<char>, Seq<char>),
    l: LookupModel,
    up: UpstreamModel,
    use_stale: bool,
    limit: nat,
) -> Map<(Seq<char>, Seq<char>), Snapshot> {
    match up {
        UpstreamModel::Succeeded(head, body) => if body_fits(body, limit) {
            m.insert(key, snapshot_of(head, body.unwrap()))
        } else {
            m
        },
        UpstreamModel::Failed => match l {
            LookupModel::Stale(_) => if use_stale {
                m
            } else {
                m.remove(key)
            },
            _ => m,
        },
    }
}

/// Whether `status` is in the success range; only such responses are stored.
pub fn is_success(status: u16) -> (r: bool)
    ensures
        r == is_success_status(status),
{
    200 <= status && status <= 299
}

fn push_decimal(n: usize, out: &mut Vec<u8>)
    ensures
        final(out)@ == old(out)@ + decimal(n as nat),
    decreases n,
{
    if n >= 10 {
        push_decimal(n / 10, out);
    }
    out.push(48u8 + (n % 10) as u8);
    proof {
        assert(final(out)@ =~= old(out)@ + decimal(n as nat));
    }
}

/// The body of the response that replaces one whose body is over `limit` bytes.
pub fn body_too_large_message(limit: usize) -> (r: Vec<u8>)
    ensures
        r@ == too_large_message(limit as nat),
{
    let mut r: Vec<u8> = Vec::new();
    r.extend_from_slice("File too big, over ".as_bytes());
    push_decimal(limit, &mut r);
    r.extend_from_slice(" bytes".as_bytes());
    r
}

/// What the store may report for `key` when it holds `m`: the entry it holds,
/// if any, and whether that entry's lifespan is over (which depends on the clock).
pub open spec fn report_spec(
    m: Map<(Seq<char>, Seq<char>), Snapshot>,
    key: (Seq<char>, Seq<char>),
    cached: Option<Snapshot>,
    expired: bool,
) -> bool {
    match cached {
        Some(v) => m.contains_key(key) && m[key] == v,
        None => !m.contains_key(key) && !expired,
    }
}

/// The lookup a store report stands for: a live entry is a fresh hit, an
/// expired one a stale hit, no entry a miss.
pub open spec fn classify_spec(cached: Option<Snapshot>, expired: bool) -> LookupModel {
    match cached {
        Some(v) => if expired {
            LookupModel::Stale(v)
        } else {
            LookupModel::Fresh(v)
        },
        None => LookupModel::Miss,
    }
}

/// Turns the store's report on a key into a lookup.
pub fn classify(cached: Option<CachedResponse>, expired: bool) -> (r: Lookup)
    ensures
        cached is None ==> r is Miss,
        cached matches Some(v) ==> r@ == (if expired {
            LookupModel::Stale(v@)
        } else {
            LookupModel::Fresh(v@)
        }),
{
    match cached {
        Some(value) => {
            if expired {
                Lookup::Stale(value)
            } else {
                Lookup::Fresh(value)
            }
        },
        None => Lookup::Miss,
    }
}

/// Looks `key` up: the store's report, classified. A stale entry is put back at
/// once, so that its lifespan starts anew while this request refreshes it.
pub fn lookup<C: ResponseCache>(store: &mut C, key: &CacheKey) -> (r: Lookup)
    ensures
        exists|cached: Option<Snapshot>, expired: bool|
            report_spec(old(store).entries(), key@, cached, expired) && r@ == classify_spec(
                cached,
                expired,
            ),
        lookup_spec(old(store).entries(), key@, r@, final(store).entries()),
{
    let (cached, expired) = store.get_with_expiry(key);
    let ghost reported = match &cached {
        Some(v) => Some(v@),
        None => None,
    };
    let r = classify(cached, expired);
    if let Lookup::Stale(value) = &r {
        store.store_entry(key.duplicate(), value.share());
    }
    assert(report_spec(old(store).entries(), key@, reported, expired));
    assert(r@ == classify_spec(reported, expired));
    r
}

/// Whether the wrapped handler must be called after `l`.
pub fn needs_handler(l: &Lookup) -> (r: bool)
    ensures
        r == forwards(l@),
{
    !matches!(l, Lookup::Fresh(_))
}

/// Turns a successful response into an entry, provided its body was read whole
/// and is at most `limit` bytes long.
pub fn materialize(head: ResponseHead, body: Option<Vec<u8>>, limit: usize) -> (r: Option<CachedResponse>)
    ensures
        r is Some <==> (body matches Some(b) && b@.len() <= limit),
        r matches Some(e) ==> e@ == snapshot_of(head, body.unwrap()@),
{
    match body {
        Some(b) => {
            if b.len() <= limit {
                Some(CachedResponse::new(head, b))
            } else {
                None
            }
        },
        None => None,
    }
}

/// Settles a forwarded request: stores what deserves it, evicts what must go,
/// and says how the request is answered.
pub fn settle<C: ResponseCache>(
    store: &mut C,
    key: CacheKey,
    prior: Lookup,
    upstream: Upstream,
    use_stale: bool,
    limit: usize,
) -> (r: Reply)
    requires
        upstream matches Upstream::Succeeded(head, _) ==> is_success_status(head.status),
    ensures
        r@ == reply_spec(prior@, upstream@, use_stale, limit as nat),
        final(store).entries() == settled_store(
            old(store).entries(),
            key@,
            prior@,
            upstream@,
            use_stale,
            limit as nat,
        ),
{
    match upstream {
        Upstream::Succeeded(head, body) => {
            match materialize(head, body, limit) {
                Some(entry) => {
                    store.store_entry(key, entry.share());
                    Reply::Entry(entry)
                },
                None => Reply::Synthesized(BODY_TOO_LARGE_STATUS, body_too_large_message(limit)),
            }
        },
        Upstream::Failed => {
            match prior {
                Lookup::Stale(stale) => {
                    if use_stale {
                        Reply::Entry(stale)
                    } else {
                        store.evict_entry(&key);
                        Reply::PassThrough
                    }
                },
                _ => Reply::PassThrough,
            }
        },
    }
}

} // verus!
