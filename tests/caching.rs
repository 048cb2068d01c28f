use axum_response_cache::{
    body_too_large_message, classify, is_success, lookup, materialize, needs_handler, settle, CacheKey,
    CacheLayer, CacheService, Lookup, ProtocolVersion, Reply, ResponseHead, Upstream,
    BODY_TOO_LARGE_STATUS, DEFAULT_BODY_LIMIT, CachedResponse, ResponseStore,
};
use cached::stores::TtlCache;
use std::time::{Duration, Instant};

/// One answer of a test handler: status, headers and body.
struct Answer {
    status: u16,
    headers: Vec<(String, Vec<u8>)>,
    body: Vec<u8>,
}

fn answer(status: u16, body: &[u8]) -> Answer {
    Answer {
        status,
        headers: vec![("content-type".to_string(), b"text/plain".to_vec())],
        body: body.to_vec(),
    }
}

/// What the client receives: status, headers and body.
type Received = (u16, Vec<(String, Vec<u8>)>, Vec<u8>);

/// Runs one request through the engine the way the service does, calling
/// `handler` only when the engine forwards the request.
fn request<S>(
    service: &CacheService<S, ResponseStore>,
    method: &str,
    target: &str,
    handler: &mut dyn FnMut() -> Answer,
) -> Received {
    let key = CacheKey::new(method.to_string(), target.to_string());
    let prior = {
        let mut store = service.store().lock().unwrap();
        lookup(&mut *store, &key)
    };
    if let Lookup::Fresh(entry) = &prior {
        return (entry.status(), entry.headers().clone(), entry.body().clone());
    }
    assert!(needs_handler(&prior));
    let got = handler();
    let upstream = if is_success(got.status) {
        let head = ResponseHead {
            status: got.status,
            version: ProtocolVersion::Http11,
            headers: got.headers.clone(),
        };
        let body = if got.body.len() <= service.limit() {
            Some(got.body.clone())
        } else {
            None
        };
        Upstream::Succeeded(head, body)
    } else {
        Upstream::Failed
    };
    let reply = {
        let mut store = service.store().lock().unwrap();
        settle(&mut *store, key, prior, upstream, service.uses_stale(), service.limit())
    };
    match reply {
        Reply::Entry(entry) => (entry.status(), entry.headers().clone(), entry.body().clone()),
        Reply::PassThrough => (got.status, got.headers, got.body),
        Reply::Synthesized(status, body) => (status, Vec::new(), body),
    }
}

fn wait_past(start: Instant, millis: u64) {
    while start.elapsed() < Duration::from_millis(millis) {}
}

fn failing_status(n: usize) -> u16 {
    [400u16, 500, 404][n % 3]
}

#[test]
fn should_use_cached_value() {
    let service = CacheLayer::with_lifespan(60).use_stale_on_failure().layer(());
    let mut counter = 0;
    let mut handler = || {
        counter += 1;
        answer(200, b"")
    };
    for _ in 0..10 {
        let (status, _, _) = request(&service, "GET", "/", &mut handler);
        assert!(is_success(status), "handler should return success");
    }
    assert_eq!(1, counter, "handler should've been called only once");
}

#[test]
fn should_not_cache_unsuccessful_responses() {
    let service = CacheLayer::with_lifespan(60).use_stale_on_failure().layer(());
    let mut counter = 0;
    let mut handler = || {
        counter += 1;
        answer(failing_status(counter), b"")
    };
    for _ in 0..10 {
        let (status, _, _) = request(&service, "GET", "/", &mut handler);
        assert!(!is_success(status), "handler should never return success");
    }
    assert_eq!(10, counter, "handler should've been called for all requests");
}

#[test]
fn should_use_last_correct_stale_value() {
    let service = CacheLayer::with_lifespan(1).use_stale_on_failure().layer(());
    let mut counter = 0;
    let mut handler = || {
        let prev = counter;
        counter += 1;
        if prev == 0 {
            answer(200, b"")
        } else {
            answer(failing_status(prev), b"")
        }
    };
    let start = Instant::now();
    let (status, _, _) = request(&service, "GET", "/", &mut handler);
    assert!(is_success(status), "handler should return success");

    wait_past(start, 1050);

    for _ in 1..10 {
        let (status, _, _) = request(&service, "GET", "/", &mut handler);
        assert!(is_success(status), "cache should return stale successful value");
    }
}

#[test]
fn should_not_use_stale_values() {
    let service = CacheLayer::with_lifespan(1).layer(());
    let mut counter = 0;
    let mut handler = || {
        let prev = counter;
        counter += 1;
        if prev == 0 {
            answer(200, b"")
        } else {
            answer(failing_status(prev), b"")
        }
    };
    let start = Instant::now();
    let (status, _, _) = request(&service, "GET", "/", &mut handler);
    assert!(is_success(status), "handler should return success");

    wait_past(start, 1050);

    for _ in 1..10 {
        let (status, _, _) = request(&service, "GET", "/", &mut handler);
        assert!(!is_success(status), "cache should forward unsuccessful values");
    }
    assert_eq!(10, counter, "handler should've been called for all requests");
}

#[test]
fn fresh_hits_return_identical_bodies() {
    let service = CacheLayer::with_lifespan(60).layer(());
    let mut counter = 0;
    let mut handler = || {
        counter += 1;
        answer(200, format!("Hello, foo #{}", counter).as_bytes())
    };
    let mut seen = Vec::new();
    for _ in 0..10 {
        seen.push(request(&service, "GET", "/hello/foo", &mut handler));
    }
    assert_eq!(1, counter);
    for r in &seen {
        assert_eq!(200, r.0);
        assert_eq!(b"Hello, foo #1".to_vec(), r.2);
    }
}

#[test]
fn body_limit_is_enforced() {
    let service = CacheLayer::with_lifespan(60).body_limit(16).layer(());
    let mut ok_calls = 0;
    let mut ok_handler = || {
        ok_calls += 1;
        answer(200, b"ok")
    };
    let (status, _, body) = request(&service, "GET", "/ok", &mut ok_handler);
    assert_eq!(200, status);
    assert_eq!(b"ok".to_vec(), body);
    let (status, _, _) = request(&service, "GET", "/ok", &mut ok_handler);
    assert_eq!(200, status);
    assert_eq!(1, ok_calls, "a stored body is a fresh hit");

    let mut long_calls = 0;
    let mut long_handler = || {
        long_calls += 1;
        answer(200, b"a response that is well beyond the limit of the cache!")
    };
    let (status, _, body) = request(&service, "GET", "/too_long", &mut long_handler);
    assert_eq!(500, status);
    let text = String::from_utf8(body).unwrap();
    assert!(text.contains("16"));
    let (status, _, _) = request(&service, "GET", "/too_long", &mut long_handler);
    assert_eq!(500, status);
    assert_eq!(2, long_calls, "an oversized body is never stored");
}

#[test]
fn served_entry_matches_stored_response() {
    let service = CacheLayer::with_lifespan(60).layer(());
    let mut handler = || Answer {
        status: 201,
        headers: vec![
            ("x-one".to_string(), b"1".to_vec()),
            ("x-two".to_string(), vec![0xff, 0x00]),
        ],
        body: vec![1, 2, 3, 0, 255],
    };
    let first = request(&service, "GET", "/thing?x=1", &mut handler);
    let mut unused = || -> Answer { panic!("handler must not run on a fresh hit") };
    let second = request(&service, "GET", "/thing?x=1", &mut unused);
    assert_eq!(first, second);
    assert_eq!(201, second.0);
    assert_eq!(vec![1, 2, 3, 0, 255], second.2);
}

#[test]
fn method_and_target_form_the_key() {
    let service = CacheLayer::with_lifespan(60).layer(());
    let mut counter = 0;
    let mut handler = || {
        counter += 1;
        answer(200, b"x")
    };
    request(&service, "GET", "/a", &mut handler);
    request(&service, "POST", "/a", &mut handler);
    request(&service, "GET", "/a?q=1", &mut handler);
    request(&service, "GET", "/a", &mut handler);
    assert_eq!(3, counter);
}

#[test]
fn too_large_message_names_the_limit() {
    assert_eq!(b"File too big, over 16 bytes".to_vec(), body_too_large_message(16));
    assert_eq!(b"File too big, over 0 bytes".to_vec(), body_too_large_message(0));
    assert_eq!(
        format!("File too big, over {} bytes", usize::MAX).into_bytes(),
        body_too_large_message(usize::MAX)
    );
    assert_eq!(500, BODY_TOO_LARGE_STATUS);
}

#[test]
fn success_range_is_inclusive() {
    assert!(!is_success(199));
    assert!(is_success(200));
    assert!(is_success(299));
    assert!(!is_success(300));
    assert!(!is_success(404));
}

#[test]
fn materialize_checks_the_limit() {
    let head = ResponseHead { status: 200, version: ProtocolVersion::Http2, headers: Vec::new() };
    let exact = materialize(head.clone(), Some(vec![7u8; 4]), 4).unwrap();
    assert_eq!(&vec![7u8; 4], exact.body());
    assert_eq!(ProtocolVersion::Http2, exact.version());
    assert!(materialize(head.clone(), Some(vec![7u8; 5]), 4).is_none());
    assert!(materialize(head.clone(), None, 4).is_none());
    assert!(materialize(head, Some(Vec::new()), 0).is_some());
}

#[test]
fn stale_entry_is_evicted_without_fallback() {
    let mut store = TtlCache::new(Duration::from_millis(50));
    let key = CacheKey::new("GET".to_string(), "/s".to_string());
    let head = ResponseHead { status: 200, version: ProtocolVersion::Http11, headers: Vec::new() };
    let prior = lookup(&mut store, &key);
    assert!(matches!(prior, Lookup::Miss));
    let reply = settle(&mut store, key.duplicate(), prior, Upstream::Succeeded(head, Some(b"v".to_vec())), false, 16);
    assert!(matches!(reply, Reply::Entry(_)));
    assert!(matches!(lookup(&mut store, &key), Lookup::Fresh(_)));

    wait_past(Instant::now(), 80);
    let prior = lookup(&mut store, &key);
    match &prior {
        Lookup::Stale(v) => assert_eq!(&b"v".to_vec(), v.body()),
        _ => panic!("expected a stale entry"),
    }
    let reply = settle(&mut store, key.duplicate(), prior, Upstream::Failed, false, 16);
    assert!(matches!(reply, Reply::PassThrough));
    assert!(matches!(lookup(&mut store, &key), Lookup::Miss));
}

#[test]
fn stale_entry_is_kept_with_fallback() {
    let mut store = TtlCache::new(Duration::from_millis(50));
    let key = CacheKey::new("GET".to_string(), "/s".to_string());
    let head = ResponseHead { status: 200, version: ProtocolVersion::Http11, headers: Vec::new() };
    let prior = lookup(&mut store, &key);
    settle(&mut store, key.duplicate(), prior, Upstream::Succeeded(head, Some(b"v".to_vec())), true, 16);
    wait_past(Instant::now(), 80);
    let prior = lookup(&mut store, &key);
    assert!(matches!(prior, Lookup::Stale(_)));
    match settle(&mut store, key.duplicate(), prior, Upstream::Failed, true, 16) {
        Reply::Entry(v) => assert_eq!(&b"v".to_vec(), v.body()),
        _ => panic!("expected the stale entry"),
    }
    // the stale entry was put back at lookup time, so it is live again
    assert!(matches!(lookup(&mut store, &key), Lookup::Fresh(_)));
}

#[test]
fn layer_configuration() {
    let layer = CacheLayer::with_lifespan(5);
    let service = layer.layer(7u8);
    assert!(!service.uses_stale());
    assert_eq!(DEFAULT_BODY_LIMIT, service.limit());
    assert_eq!(128 * 1024 * 1024, DEFAULT_BODY_LIMIT);
    assert_eq!(7u8, service.inner);
    let service = CacheLayer::with(TtlCache::new(Duration::from_secs(3)))
        .use_stale_on_failure()
        .body_limit(usize::MAX)
        .layer(());
    assert!(service.uses_stale());
    assert_eq!(usize::MAX, service.limit());
}

#[test]
fn classify_follows_the_expiry_report() {
    let head = ResponseHead { status: 200, version: ProtocolVersion::Http11, headers: Vec::new() };
    let entry = CachedResponse::new(head, b"e".to_vec());
    match classify(Some(entry.share()), false) {
        Lookup::Fresh(v) => assert_eq!(&b"e".to_vec(), v.body()),
        _ => panic!("a live entry is a fresh hit"),
    }
    match classify(Some(entry), true) {
        Lookup::Stale(v) => assert_eq!(&b"e".to_vec(), v.body()),
        _ => panic!("an expired entry is a stale hit"),
    }
    assert!(matches!(classify(None, false), Lookup::Miss));
}

#[test]
fn zero_lifespan_makes_every_entry_stale() {
    let service = CacheLayer::with_lifespan(0).layer(());
    let mut counter = 0;
    let mut handler = || {
        counter += 1;
        answer(200, b"z")
    };
    for _ in 0..3 {
        let (status, _, body) = request(&service, "GET", "/z", &mut handler);
        assert_eq!(200, status);
        assert_eq!(b"z".to_vec(), body);
    }
    assert_eq!(3, counter, "an entry that never stays live is refreshed each time");
}
