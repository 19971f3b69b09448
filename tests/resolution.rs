use beatmap_resolver::cache::{cache_path, download_url};
use beatmap_resolver::resolve::{Action, Event, FetchError, ResolveError, Resolution, Stage};
use beatmap_resolver::status::PublicationStatus;

const MUTABLE: [PublicationStatus; 3] = [
    PublicationStatus::Graveyard,
    PublicationStatus::WorkInProgress,
    PublicationStatus::Pending,
];

const STABLE: [PublicationStatus; 4] = [
    PublicationStatus::Ranked,
    PublicationStatus::Loved,
    PublicationStatus::Qualified,
    PublicationStatus::Approved,
];

fn is_request(a: &Action) -> bool {
    matches!(a, Action::Request)
}

fn delivered(a: Action) -> String {
    match a {
        Action::Deliver(s) => s,
        other => panic!("expected a document, got {:?}", other),
    }
}

fn failure(a: Action) -> ResolveError {
    match a {
        Action::Fail(e) => e,
        other => panic!("expected a failure, got {:?}", other),
    }
}

#[test]
fn mutable_status_is_classified() {
    for s in MUTABLE {
        assert!(s.is_mutable());
    }
    for s in STABLE {
        assert!(!s.is_mutable());
    }
}

#[test]
fn mutable_status_goes_to_origin_without_cache() {
    for s in MUTABLE {
        let (mut r, first) = Resolution::start(7, s);
        assert!(is_request(&first));
        assert_eq!(r.stage(), Stage::AwaitResponse);
        // A cache entry that exists is never asked for.
        assert!(!r.accepts(&Event::CacheFound(b"cached".to_vec())));
        assert!(matches!(r.step(Event::Responded(200)), Action::ReadBody));
        match r.step(Event::Body(b"fresh".to_vec())) {
            Action::Persist(b) => assert_eq!(b, b"fresh".to_vec()),
            other => panic!("unexpected {:?}", other),
        }
        assert_eq!(delivered(r.step(Event::Persisted)), "fresh");
        assert_eq!(r.stage(), Stage::Finished);
    }
}

#[test]
fn stable_status_serves_cached_bytes() {
    for s in STABLE {
        let (mut r, first) = Resolution::start(9, s);
        assert!(matches!(first, Action::ReadCache));
        let text = delivered(r.step(Event::CacheFound(b"[General]\nMode: 0".to_vec())));
        assert_eq!(text, "[General]\nMode: 0");
        assert_eq!(r.stage(), Stage::Finished);
        assert!(!r.accepts(&Event::Responded(200)));
    }
}

#[test]
fn stable_miss_fetches_then_cache_serves_same_text() {
    let body = "osu file format v14\n".as_bytes().to_vec();
    let (mut r, _) = Resolution::start(5, PublicationStatus::Ranked);
    assert!(is_request(&r.step(Event::CacheMissing)));
    assert!(matches!(r.step(Event::Responded(204)), Action::ReadBody));
    let written = match r.step(Event::Body(body.clone())) {
        Action::Persist(b) => b,
        other => panic!("unexpected {:?}", other),
    };
    assert_eq!(written, body);
    let fetched = delivered(r.step(Event::Persisted));

    let (mut again, first) = Resolution::start(5, PublicationStatus::Ranked);
    assert!(matches!(first, Action::ReadCache));
    let cached = delivered(again.step(Event::CacheFound(written)));
    assert_eq!(cached, fetched);
    assert_eq!(cached.as_bytes(), body.as_slice());
}

#[test]
fn cache_failure_other_than_missing_is_fatal() {
    let (mut r, _) = Resolution::start(1, PublicationStatus::Loved);
    assert_eq!(failure(r.step(Event::CacheFailed)), ResolveError::CacheUnreadable);
    assert_eq!(r.stage(), Stage::Finished);

    let (mut r, _) = Resolution::start(1, PublicationStatus::Loved);
    assert!(is_request(&r.step(Event::CacheMissing)));
    assert_eq!(r.stage(), Stage::AwaitResponse);
}

#[test]
fn cached_bytes_that_are_not_text_are_unreadable() {
    let (mut r, _) = Resolution::start(1, PublicationStatus::Approved);
    assert_eq!(
        failure(r.step(Event::CacheFound(vec![0xff, 0xfe]))),
        ResolveError::CacheUnreadable
    );
}

#[test]
fn origin_rejection_carries_status() {
    let (mut r, _) = Resolution::start(3, PublicationStatus::Pending);
    assert_eq!(
        failure(r.step(Event::Responded(404))),
        ResolveError::Fetch(FetchError::RemoteRejected(404))
    );
    let (mut r, _) = Resolution::start(3, PublicationStatus::Pending);
    assert_eq!(
        failure(r.step(Event::Responded(199))),
        ResolveError::Fetch(FetchError::RemoteRejected(199))
    );
    let (mut r, _) = Resolution::start(3, PublicationStatus::Pending);
    assert_eq!(
        failure(r.step(Event::Responded(300))),
        ResolveError::Fetch(FetchError::RemoteRejected(300))
    );
    let (mut r, _) = Resolution::start(3, PublicationStatus::Pending);
    assert!(matches!(r.step(Event::Responded(299)), Action::ReadBody));
}

#[test]
fn transport_failure_before_and_during_body() {
    let (mut r, _) = Resolution::start(3, PublicationStatus::Graveyard);
    assert_eq!(
        failure(r.step(Event::TransportFailed)),
        ResolveError::Fetch(FetchError::Transport)
    );
    let (mut r, _) = Resolution::start(3, PublicationStatus::Graveyard);
    r.step(Event::Responded(200));
    assert_eq!(
        failure(r.step(Event::TransportFailed)),
        ResolveError::Fetch(FetchError::Transport)
    );
}

#[test]
fn persist_failure_fails_the_request() {
    let (mut r, _) = Resolution::start(3, PublicationStatus::WorkInProgress);
    r.step(Event::Responded(200));
    r.step(Event::Body(b"data".to_vec()));
    assert_eq!(
        failure(r.step(Event::PersistFailed)),
        ResolveError::Fetch(FetchError::PersistFailed)
    );
}

#[test]
fn fetched_bytes_that_are_not_text_fail_encoding() {
    let (mut r, _) = Resolution::start(3, PublicationStatus::WorkInProgress);
    r.step(Event::Responded(200));
    r.step(Event::Body(vec![b'a', 0xc3]));
    assert_eq!(
        failure(r.step(Event::Persisted)),
        ResolveError::Fetch(FetchError::Encoding)
    );
}

#[test]
fn resolution_keeps_its_map_id() {
    let (mut r, _) = Resolution::start(4242, PublicationStatus::Ranked);
    r.step(Event::CacheMissing);
    assert_eq!(r.id(), 4242);
}

#[test]
fn paths_are_derived_from_the_id() {
    assert_eq!(cache_path(123), "maps/123.osu");
    assert_eq!(cache_path(0), "maps/0.osu");
    assert_eq!(cache_path(4294967295), "maps/4294967295.osu");
    assert_eq!(download_url(123), "https://osu.ppy.sh/osu/123");
    assert_eq!(download_url(10), "https://osu.ppy.sh/osu/10");
}
