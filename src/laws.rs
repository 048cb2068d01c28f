use crate::engine::{
    body_fits, classify_spec, decimal, forwards, is_success_status, lookup_spec, reply_spec, report_spec, settled_store,
    too_large_message, LookupModel, ReplyModel, UpstreamModel, BODY_TOO_LARGE_STATUS,
};
use crate::response::{snapshot_of, ResponseHead, Snapshot};
use vstd::prelude::*;
use vstd::string::StringSliceAdditionalSpecFns;

verus! {

/// While the store reports its entry for a key live, identical requests are
/// answered from the store: none of them reaches the handler, none changes the
/// store, and all get the same entry.
pub proof fn fresh_hits_skip_handler(
    m: Map<(Seq<char>, Seq<char>), Snapshot>,
    key: (Seq<char>, Seq<char>),
    reports: Seq<(Option<Snapshot>, bool)>,
)
    requires
        m.contains_key(key),
        forall|i: int|
            0 <= i < reports.len() ==> report_spec(m, key, (#[trigger] reports[i]).0, reports[i].1)
                && !reports[i].1,
    ensures
        forall|i: int|
            0 <= i < reports.len() ==> classify_spec((#[trigger] reports[i]).0, reports[i].1)
                == LookupModel::Fresh(m[key]),
        !forwards(LookupModel::Fresh(m[key])),
        lookup_spec(m, key, LookupModel::Fresh(m[key]), m),
{
}

/// A request whose handler fails never puts an entry in the store: when the
/// store holds nothing for the key, the handler is called and the store still
/// holds nothing for it afterwards, so each further failing request is forwarded
/// in turn.
pub proof fn failures_never_stored(
    m: Map<(Seq<char>, Seq<char>), Snapshot>,
    key: (Seq<char>, Seq<char>),
    l: LookupModel,
    after_lookup: Map<(Seq<char>, Seq<char>), Snapshot>,
    use_stale: bool,
    limit: nat,
)
    requires
        !m.contains_key(key),
        lookup_spec(m, key, l, after_lookup),
    ensures
        forwards(l),
        reply_spec(l, UpstreamModel::Failed, use_stale, limit) == ReplyModel::PassThrough,
        !settled_store(after_lookup, key, l, UpstreamModel::Failed, use_stale, limit).contains_key(key),
{
}

/// With stale fallback on, an entry the store reports expired is a stale hit; a
/// failed refresh is answered with that entry, which stays in the store, so the
/// next request is answered with it again whether it is then live or expired.
pub proof fn stale_fallback_serves_last_success(
    m: Map<(Seq<char>, Seq<char>), Snapshot>,
    key: (Seq<char>, Seq<char>),
    stale: Snapshot,
    after_lookup: Map<(Seq<char>, Seq<char>), Snapshot>,
    limit: nat,
    next: (Option<Snapshot>, bool),
)
    requires
        report_spec(m, key, Some(stale), true),
        lookup_spec(m, key, LookupModel::Stale(stale), after_lookup),
        report_spec(
            settled_store(after_lookup, key, LookupModel::Stale(stale), UpstreamModel::Failed, true, limit),
            key,
            next.0,
            next.1,
        ),
    ensures
        classify_spec(Some(stale), true) == LookupModel::Stale(stale),
        reply_spec(LookupModel::Stale(stale), UpstreamModel::Failed, true, limit) == ReplyModel::Entry(stale),
        classify_spec(next.0, next.1) == LookupModel::Fresh(stale) || classify_spec(next.0, next.1)
            == LookupModel::Stale(stale),
        classify_spec(next.0, next.1) is Stale ==> reply_spec(
            classify_spec(next.0, next.1),
            UpstreamModel::Failed,
            true,
            limit,
        ) == ReplyModel::Entry(stale),
{
}

/// With stale fallback off, an entry the store reports expired is a stale hit; a
/// failed refresh is answered with the handler's own response and the entry
/// leaves the store, so the next identical request misses and reaches the handler
/// again.
pub proof fn stale_dropped_without_fallback(
    m: Map<(Seq<char>, Seq<char>), Snapshot>,
    key: (Seq<char>, Seq<char>),
    stale: Snapshot,
    after_lookup: Map<(Seq<char>, Seq<char>), Snapshot>,
    limit: nat,
    next: (Option<Snapshot>, bool),
)
    requires
        report_spec(m, key, Some(stale), true),
        lookup_spec(m, key, LookupModel::Stale(stale), after_lookup),
        report_spec(
            settled_store(after_lookup, key, LookupModel::Stale(stale), UpstreamModel::Failed, false, limit),
            key,
            next.0,
            next.1,
        ),
    ensures
        classify_spec(Some(stale), true) == LookupModel::Stale(stale),
        forwards(LookupModel::Stale(stale)),
        reply_spec(LookupModel::Stale(stale), UpstreamModel::Failed, false, limit) == ReplyModel::PassThrough,
        classify_spec(next.0, next.1) == LookupModel::Miss,
        forwards(classify_spec(next.0, next.1)),
{
}

/// A body over the limit yields the synthesized server error, whose message
/// names the limit, and leaves the store as it was; a body within the limit is
/// answered as it came and stored, so the next request, while the store reports
/// the entry live, is served from it without the handler.
pub proof fn body_limit_enforced(
    m: Map<(Seq<char>, Seq<char>), Snapshot>,
    key: (Seq<char>, Seq<char>),
    l: LookupModel,
    head: ResponseHead,
    body: Seq<u8>,
    use_stale: bool,
    limit: nat,
    next: (Option<Snapshot>, bool),
)
    requires
        is_success_status(head.status),
        report_spec(
            settled_store(m, key, l, UpstreamModel::Succeeded(head, Some(body)), use_stale, limit),
            key,
            next.0,
            next.1,
        ),
        !next.1,
    ensures
        body.len() > limit ==> reply_spec(l, UpstreamModel::Succeeded(head, Some(body)), use_stale, limit)
            == ReplyModel::Synthesized(BODY_TOO_LARGE_STATUS, too_large_message(limit)),
        body.len() > limit ==> settled_store(m, key, l, UpstreamModel::Succeeded(head, Some(body)), use_stale, limit)
            == m,
        reply_spec(l, UpstreamModel::Succeeded(head, None), use_stale, limit)
            == ReplyModel::Synthesized(BODY_TOO_LARGE_STATUS, too_large_message(limit)),
        settled_store(m, key, l, UpstreamModel::Succeeded(head, None), use_stale, limit) == m,
        exists|p: Seq<u8>, q: Seq<u8>| too_large_message(limit) == p + decimal(limit) + q,
        body.len() <= limit ==> reply_spec(l, UpstreamModel::Succeeded(head, Some(body)), use_stale, limit)
            == ReplyModel::Entry(snapshot_of(head, body)),
        body.len() <= limit ==> classify_spec(next.0, next.1) == LookupModel::Fresh(snapshot_of(head, body)),
{
    let p = "File too big, over ".spec_bytes();
    let q = " bytes".spec_bytes();
    assert(too_large_message(limit) == p + decimal(limit) + q);
}

/// Once a response is stored, the next request for which the store reports the
/// entry live is served, without the handler, with the same status, version,
/// headers and body as the answer to the request that stored it.
pub proof fn served_entry_is_stored_response(
    m: Map<(Seq<char>, Seq<char>), Snapshot>,
    key: (Seq<char>, Seq<char>),
    l: LookupModel,
    head: ResponseHead,
    body: Seq<u8>,
    use_stale: bool,
    limit: nat,
    next: (Option<Snapshot>, bool),
    hit: Snapshot,
)
    requires
        body_fits(Some(body), limit),
        report_spec(
            settled_store(m, key, l, UpstreamModel::Succeeded(head, Some(body)), use_stale, limit),
            key,
            next.0,
            next.1,
        ),
        !next.1,
        classify_spec(next.0, next.1) == LookupModel::Fresh(hit),
    ensures
        reply_spec(l, UpstreamModel::Succeeded(head, Some(body)), use_stale, limit) == ReplyModel::Entry(hit),
        !forwards(classify_spec(next.0, next.1)),
        hit.status == head.status,
        hit.version == head.version,
        hit.headers == head.headers@,
        hit.body == body,
{
}

/// The store holds successful responses only: a lookup and the settling of the
/// request that follows keep it so, provided only responses in the success range
/// are handed over as successes.
pub proof fn only_successes_stored(
    m: Map<(Seq<char>, Seq<char>), Snapshot>,
    key: (Seq<char>, Seq<char>),
    l: LookupModel,
    after_lookup: Map<(Seq<char>, Seq<char>), Snapshot>,
    up: UpstreamModel,
    use_stale: bool,
    limit: nat,
)
    requires
        forall|k| #[trigger] m.contains_key(k) ==> is_success_status(m[k].status),
        lookup_spec(m, key, l, after_lookup),
        up matches UpstreamModel::Succeeded(head, _) ==> is_success_status(head.status),
    ensures
        forall|k| #[trigger] settled_store(after_lookup, key, l, up, use_stale, limit).contains_key(k)
            ==> is_success_status(settled_store(after_lookup, key, l, up, use_stale, limit)[k].status),
{
}

pub open spec fn failing_run(
    stores: Seq<Map<(Seq<char>, Seq<char>), Snapshot>>,
    lookups: Seq<LookupModel>,
    after_lookups: Seq<Map<(Seq<char>, Seq<char>), Snapshot>>,
    key: (Seq<char>, Seq<char>),
    use_stale: bool,
    limit: nat,
) -> bool {
    &&& stores.len() == lookups.len() + 1
    &&& after_lookups.len() == lookups.len()
    &&& forall|i: int|
        0 <= i < lookups.len() ==> lookup_spec(stores[i], key, #[trigger] lookups[i], after_lookups[i])
            && stores[i + 1] == settled_store(
            after_lookups[i],
            key,
            lookups[i],
            UpstreamModel::Failed,
            use_stale,
            limit,
        )
}

proof fn absent_through_run(
    stores: Seq<Map<(Seq<char>, Seq<char>), Snapshot>>,
    lookups: Seq<LookupModel>,
    after_lookups: Seq<Map<(Seq<char>, Seq<char>), Snapshot>>,
    key: (Seq<char>, Seq<char>),
    use_stale: bool,
    limit: nat,
    i: int,
)
    requires
        failing_run(stores, lookups, after_lookups, key, use_stale, limit),
        !stores[0].contains_key(key),
        0 <= i <= lookups.len(),
    ensures
        !stores[i].contains_key(key),
    decreases i,
{
    if i > 0 {
        absent_through_run(stores, lookups, after_lookups, key, use_stale, limit, i - 1);
        assert(lookup_spec(stores[i - 1], key, lookups[i - 1], after_lookups[i - 1]));
        failures_never_stored(stores[i - 1], key, lookups[i - 1], after_lookups[i - 1], use_stale, limit);
    }
}

/// Over any run of requests for one key whose handler always fails, starting
/// from a store without that key, the store never holds an entry for it and
/// every request reaches the handler.
pub proof fn failing_run_never_stored(
    stores: Seq<Map<(Seq<char>, Seq<char>), Snapshot>>,
    lookups: Seq<LookupModel>,
    after_lookups: Seq<Map<(Seq<char>, Seq<char>), Snapshot>>,
    key: (Seq<char>, Seq<char>),
    use_stale: bool,
    limit: nat,
)
    requires
        failing_run(stores, lookups, after_lookups, key, use_stale, limit),
        !stores[0].contains_key(key),
    ensures
        forall|i: int| 0 <= i <= lookups.len() ==> !(#[trigger] stores[i]).contains_key(key),
        forall|i: int| 0 <= i < lookups.len() ==> forwards(#[trigger] lookups[i]),
{
    assert forall|i: int| 0 <= i <= lookups.len() implies !(#[trigger] stores[i]).contains_key(key) by {
        absent_through_run(stores, lookups, after_lookups, key, use_stale, limit, i);
    }
    assert forall|i: int| 0 <= i < lookups.len() implies forwards(#[trigger] lookups[i]) by {
        absent_through_run(stores, lookups, after_lookups, key, use_stale, limit, i);
        assert(lookup_spec(stores[i], key, lookups[i], after_lookups[i]));
    }
}

} // verus!
