use vstd::prelude::*;
use vstd::utf8::{decode_utf8, valid_utf8};

use crate::status::PublicationStatus;

verus! {

/// Why the remote origin did not yield a document.
#[derive(Clone, Copy, Debug, PartialEq, Eq, Structural)]
pub enum FetchError {
    /// The origin answered with this non-success HTTP status.
    RemoteRejected(u16),
    /// The transfer failed (DNS, timeout, reset connection).
    Transport,
    /// The bytes arrived but could not be written to the cache.
    PersistFailed,
    /// The bytes arrived but are not UTF-8 text.
    Encoding,
}

/// Why a resolution produced no document.
#[derive(Clone, Copy, Debug, PartialEq, Eq, Structural)]
pub enum ResolveError {
    Fetch(FetchError),
    /// The cache entry exists but could not be read as text.
    CacheUnreadable,
}

/// Where a resolution stands: what it waits for.
#[derive(Clone, Copy, Debug, PartialEq, Eq, Structural)]
pub enum Stage {
    AwaitCache,
    AwaitResponse,
    AwaitBody,
    AwaitPersist,
    Finished,
}

/// What the outside world reports back to a resolution.
#[derive(Debug)]
pub enum Event {
    /// The cache entry was read; these are its bytes.
    CacheFound(Vec<u8>),
    /// No cache entry exists for the map.
    CacheMissing,
    /// Reading the cache entry failed for another reason.
    CacheFailed,
    /// The origin answered with this HTTP status.
    Responded(u16),
    /// The request or the transfer of the body failed.
    TransportFailed,
    /// The body of a successful response.
    Body(Vec<u8>),
    /// The body was written to the cache entry.
    Persisted,
    /// Writing the cache entry failed.
    PersistFailed,
}

pub enum EventView {
    CacheFound(Seq<u8>),
    CacheMissing,
    CacheFailed,
    Responded(u16),
    TransportFailed,
    Body(Seq<u8>),
    Persisted,
    PersistFailed,
}

impl View for Event {
    type V = EventView;

    open spec fn view(&self) -> EventView {
        match self {
            Event::CacheFound(b) => EventView::CacheFound(b@),
            Event::CacheMissing => EventView::CacheMissing,
            Event::CacheFailed => EventView::CacheFailed,
            Event::Responded(c) => EventView::Responded(*c),
            Event::TransportFailed => EventView::TransportFailed,
            Event::Body(b) => EventView::Body(b@),
            Event::Persisted => EventView::Persisted,
            Event::PersistFailed => EventView::PersistFailed,
        }
    }
}

/// What a resolution asks the outside world to do next.
#[derive(Debug)]
pub enum Action {
    /// Read the cache entry of the map.
    ReadCache,
    /// Send the request for the map to the origin.
    Request,
    /// Receive the body of the response.
    ReadBody,
    /// Write these bytes to the cache entry of the map.
    Persist(Vec<u8>),
    /// The resolution is over: this is the document.
    Deliver(String),
    /// The resolution is over: it failed.
    Fail(ResolveError),
}

pub enum Reply {
    ReadCache,
    Request,
    ReadBody,
    Persist(Seq<u8>),
    Deliver(Seq<char>),
    Fail(ResolveError),
}

impl View for Action {
    type V = Reply;

    open spec fn view(&self) -> Reply {
        match self {
            Action::ReadCache => Reply::ReadCache,
            Action::Request => Reply::Request,
            Action::ReadBody => Reply::ReadBody,
            Action::Persist(b) => Reply::Persist(b@),
            Action::Deliver(s) => Reply::Deliver(s@),
            Action::Fail(e) => Reply::Fail(*e),
        }
    }
}

/// A status the origin answers with when it serves the document.
pub open spec fn is_success(code: u16) -> bool {
    200 <= code <= 299
}

/// The document that bytes spell, when they are UTF-8.
pub open spec fn text_of(b: Seq<u8>) -> Option<Seq<char>> {
    if valid_utf8(b) {
        Some(decode_utf8(b))
    } else {
        None
    }
}

/// How a resolution starts: a mutable map goes to the origin at once, a
/// stable one asks the cache first.
pub open spec fn begin(status: PublicationStatus) -> (Stage, Reply) {
    if status.is_mutable_spec() {
        (Stage::AwaitResponse, Reply::Request)
    } else {
        (Stage::AwaitCache, Reply::ReadCache)
    }
}

/// The events that a resolution waits for in each stage.
pub open spec fn accepts(stage: Stage, ev: EventView) -> bool {
    match stage {
        Stage::AwaitCache => ev is CacheFound || ev is CacheMissing || ev is CacheFailed,
        Stage::AwaitResponse => ev is Responded || ev is TransportFailed,
        Stage::AwaitBody => ev is Body || ev is TransportFailed,
        Stage::AwaitPersist => ev is Persisted || ev is PersistFailed,
        Stage::Finished => false,
    }
}

/// One transition: from a stage and the body received so far, on an
/// accepted event, the next stage, the body kept and the next action.
pub open spec fn next(stage: Stage, body: Seq<u8>, ev: EventView) -> (Stage, Seq<u8>, Reply) {
    match ev {
        EventView::CacheFound(b) => (
            Stage::Finished,
            body,
            match text_of(b) {
                Some(t) => Reply::Deliver(t),
                None => Reply::Fail(ResolveError::CacheUnreadable),
            },
        ),
        EventView::CacheMissing => (Stage::AwaitResponse, body, Reply::Request),
        EventView::CacheFailed => (Stage::Finished, body, Reply::Fail(ResolveError::CacheUnreadable)),
        EventView::Responded(code) => if is_success(code) {
            (Stage::AwaitBody, body, Reply::ReadBody)
        } else {
            (Stage::Finished, body, Reply::Fail(ResolveError::Fetch(FetchError::RemoteRejected(code))))
        },
        EventView::TransportFailed => (
            Stage::Finished,
            body,
            Reply::Fail(ResolveError::Fetch(FetchError::Transport)),
        ),
        EventView::Body(b) => (Stage::AwaitPersist, b, Reply::Persist(b)),
        EventView::Persisted => (
            Stage::Finished,
            body,
            match text_of(body) {
                Some(t) => Reply::Deliver(t),
                None => Reply::Fail(ResolveError::Fetch(FetchError::Encoding)),
            },
        ),
        EventView::PersistFailed => (
            Stage::Finished,
            body,
            Reply::Fail(ResolveError::Fetch(FetchError::PersistFailed)),
        ),
    }
}

/// The actions of a resolution that is fed `events` from the given stage and
/// body, up to the first event it does not wait for.
pub open spec fn trace(stage: Stage, body: Seq<u8>, events: Seq<EventView>) -> Seq<Reply>
    decreases events.len(),
{
    if events.len() == 0 || !accepts(stage, events[0]) {
        Seq::empty()
    } else {
        let (s, b, r) = next(stage, body, events[0]);
        seq![r] + trace(s, b, events.drop_first())
    }
}

/// All the actions of a resolution of a map with the given status.
pub open spec fn run(status: PublicationStatus, events: Seq<EventView>) -> Seq<Reply> {
    seq![begin(status).1] + trace(begin(status).0, Seq::empty(), events)
}

/// Relies on String::from_utf8: it succeeds exactly on valid UTF-8, and the
/// string then holds the characters that the bytes encode.
#[verifier::external_body]
fn decode_text(b: Vec<u8>) -> (r: Option<String>)
    ensures
        r is Some <==> valid_utf8(b@),
        r is Some ==> r->Some_0@ == decode_utf8(b@),
{
    String::from_utf8(b).ok()
}

fn deliver_or(b: Vec<u8>, e: ResolveError) -> (r: Action)
    ensures
        r@ == match text_of(b@) {
            Some(t) => Reply::Deliver(t),
            None => Reply::Fail(e),
        },
{
    match decode_text(b) {
        Some(s) => Action::Deliver(s),
        None => Action::Fail(e),
    }
}

/// The resolution of one map's document, driven by the events that the
/// cache and the origin report.
pub struct Resolution {
    id: u32,
    stage: Stage,
    body: Vec<u8>,
}

impl View for Resolution {
    type V = (Stage, Seq<u8>);

    closed spec fn view(&self) -> (Stage, Seq<u8>) {
        (self.stage, self.body@)
    }
}

impl Resolution {
    pub closed spec fn id_spec(&self) -> u32 {
        self.id
    }

    /// Starts the resolution of map `id` with the given status, and returns
    /// the first action.
    pub fn start(id: u32, status: PublicationStatus) -> (r: (Resolution, Action))
        ensures
            r.0.id_spec() == id,
            r.0@ == (begin(status).0, Seq::<u8>::empty()),
            r.1@ == begin(status).1,
    {
        if status.is_mutable() {
            (Resolution { id, stage: Stage::AwaitResponse, body: Vec::new() }, Action::Request)
        } else {
            (Resolution { id, stage: Stage::AwaitCache, body: Vec::new() }, Action::ReadCache)
        }
    }

    /// The map being resolved.
    pub fn id(&self) -> (r: u32)
        ensures
            r == self.id_spec(),
    {
        self.id
    }

    /// The stage the resolution is in.
    pub fn stage(&self) -> (r: Stage)
        ensures
            r == self@.0,
    {
        self.stage
    }

    /// Whether the resolution waits for `ev` now.
    pub fn accepts(&self, ev: &Event) -> (r: bool)
        ensures
            r == accepts(self@.0, ev@),
    {
        match self.stage {
            Stage::AwaitCache => matches!(ev, Event::CacheFound(_) | Event::CacheMissing | Event::CacheFailed),
            Stage::AwaitResponse => matches!(ev, Event::Responded(_) | Event::TransportFailed),
            Stage::AwaitBody => matches!(ev, Event::Body(_) | Event::TransportFailed),
            Stage::AwaitPersist => matches!(ev, Event::Persisted | Event::PersistFailed),
            Stage::Finished => false,
        }
    }

    /// Takes in what the outside world reported and returns the next action.
    pub fn step(&mut self, ev: Event) -> (r: Action)
        requires
            accepts(old(self)@.0, ev@),
        ensures
            final(self).id_spec() == old(self).id_spec(),
            (final(self)@.0, final(self)@.1, r@) == next(old(self)@.0, old(self)@.1, ev@),
    {
        match ev {
            Event::CacheFound(b) => {
                self.stage = Stage::Finished;
                deliver_or(b, ResolveError::CacheUnreadable)
            },
            Event::CacheMissing => {
                self.stage = Stage::AwaitResponse;
                Action::Request
            },
            Event::CacheFailed => {
                self.stage = Stage::Finished;
                Action::Fail(ResolveError::CacheUnreadable)
            },
            Event::Responded(code) => {
                if 200 <= code && code <= 299 {
                    self.stage = Stage::AwaitBody;
                    Action::ReadBody
                } else {
                    self.stage = Stage::Finished;
                    Action::Fail(ResolveError::Fetch(FetchError::RemoteRejected(code)))
                }
            },
            Event::TransportFailed => {
                self.stage = Stage::Finished;
                Action::Fail(ResolveError::Fetch(FetchError::Transport))
            },
            Event::Body(b) => {
                self.stage = Stage::AwaitPersist;
                let kept = b.clone();
                self.body = b;
                Action::Persist(kept)
            },
            Event::Persisted => {
                self.stage = Stage::Finished;
                let b = self.body.clone();
                deliver_or(b, ResolveError::Fetch(FetchError::Encoding))
            },
            Event::PersistFailed => {
                self.stage = Stage::Finished;
                Action::Fail(ResolveError::Fetch(FetchError::PersistFailed))
            },
        }
    }
}

/// No transition asks for the cache: only the start of a stable resolution does.
proof fn lemma_trace_never_reads_cache(stage: Stage, body: Seq<u8>, events: Seq<EventView>)
    ensures
        !trace(stage, body, events).contains(Reply::ReadCache),
    decreases events.len(),
{
    if events.len() > 0 && accepts(stage, events[0]) {
        let (s, b, r) = next(stage, body, events[0]);
        lemma_trace_never_reads_cache(s, b, events.drop_first());
        let t = trace(stage, body, events);
        assert(t == seq![r] + trace(s, b, events.drop_first()));
        if t.contains(Reply::ReadCache) {
            let k = choose|k: int| 0 <= k < t.len() && t[k] == Reply::ReadCache;
            if k > 0 {
                assert(trace(s, b, events.drop_first())[k - 1] == Reply::ReadCache);
            }
        }
    }
}

/// A map whose status is mutable goes to the origin first and never has its
/// cache entry read, whatever the cache and the origin report.
pub proof fn lemma_mutable_never_reads_cache(status: PublicationStatus, events: Seq<EventView>)
    requires
        status.is_mutable_spec(),
    ensures
        run(status, events)[0] == Reply::Request,
        !run(status, events).contains(Reply::ReadCache),
{
    lemma_trace_never_reads_cache(begin(status).0, Seq::empty(), events);
    let t = trace(begin(status).0, Seq::<u8>::empty(), events);
    let r = run(status, events);
    assert(r == seq![Reply::Request] + t);
    if r.contains(Reply::ReadCache) {
        let k = choose|k: int| 0 <= k < r.len() && r[k] == Reply::ReadCache;
        if k > 0 {
            assert(t[k - 1] == Reply::ReadCache);
        }
    }
}

/// A stable map whose cache entry is read as text is served from it: the
/// resolution reads the cache, delivers exactly that text and ends, with no
/// request to the origin whatever is reported afterwards.
pub proof fn lemma_stable_cache_hit(status: PublicationStatus, cached: Seq<u8>, later: Seq<EventView>)
    requires
        !status.is_mutable_spec(),
        valid_utf8(cached),
    ensures
        run(status, seq![EventView::CacheFound(cached)] + later) == seq![
            Reply::ReadCache,
            Reply::Deliver(decode_utf8(cached)),
        ],
{
    let evs = seq![EventView::CacheFound(cached)] + later;
    assert(evs[0] == EventView::CacheFound(cached));
    let rest = evs.drop_first();
    assert(trace(Stage::Finished, Seq::<u8>::empty(), rest) == Seq::<Reply>::empty());
    assert(trace(Stage::AwaitCache, Seq::<u8>::empty(), evs) =~= seq![Reply::Deliver(decode_utf8(cached))]);
    assert(run(status, evs) =~= seq![Reply::ReadCache, Reply::Deliver(decode_utf8(cached))]);
}

/// A stable map with no cache entry is fetched: the body is written to the
/// cache as it came and delivered as text. A later resolution of the map that
/// finds those bytes in the cache delivers the same text without a request.
pub proof fn lemma_stable_miss_fetches_then_serves_from_cache(
    status: PublicationStatus,
    code: u16,
    body: Seq<u8>,
)
    requires
        !status.is_mutable_spec(),
        is_success(code),
        valid_utf8(body),
    ensures
        run(
            status,
            seq![
                EventView::CacheMissing,
                EventView::Responded(code),
                EventView::Body(body),
                EventView::Persisted,
            ],
        ) == seq![
            Reply::ReadCache,
            Reply::Request,
            Reply::ReadBody,
            Reply::Persist(body),
            Reply::Deliver(decode_utf8(body)),
        ],
        run(status, seq![EventView::CacheFound(body)]) == seq![
            Reply::ReadCache,
            Reply::Deliver(decode_utf8(body)),
        ],
{
    let e = seq![
        EventView::CacheMissing,
        EventView::Responded(code),
        EventView::Body(body),
        EventView::Persisted,
    ];
    let e1 = e.drop_first();
    let e2 = e1.drop_first();
    let e3 = e2.drop_first();
    let e4 = e3.drop_first();
    assert(e4.len() == 0);
    assert(trace(Stage::Finished, body, e4) == Seq::<Reply>::empty());
    assert(e3[0] == EventView::Persisted);
    assert(e2[0] == EventView::Body(body));
    assert(e1[0] == EventView::Responded(code));
    let d = Reply::Deliver(decode_utf8(body));
    assert(trace(Stage::AwaitPersist, body, e3) =~= seq![d]);
    assert(trace(Stage::AwaitBody, Seq::<u8>::empty(), e2) =~= seq![Reply::Persist(body), d]);
    assert(trace(Stage::AwaitResponse, Seq::<u8>::empty(), e1) =~= seq![
        Reply::ReadBody,
        Reply::Persist(body),
        d,
    ]);
    assert(trace(Stage::AwaitCache, Seq::<u8>::empty(), e) =~= seq![
        Reply::Request,
        Reply::ReadBody,
        Reply::Persist(body),
        d,
    ]);
    assert(run(status, e) =~= seq![
        Reply::ReadCache,
        Reply::Request,
        Reply::ReadBody,
        Reply::Persist(body),
        d,
    ]);
    lemma_stable_cache_hit(status, body, Seq::empty());
    assert(seq![EventView::CacheFound(body)] + Seq::<EventView>::empty() =~= seq![
        EventView::CacheFound(body),
    ]);
}

/// A stable map's cache entry that is missing sends the resolution to the
/// origin; one that cannot be read for another reason ends it with
/// `CacheUnreadable`, with no request to the origin.
pub proof fn lemma_cache_failures(status: PublicationStatus, later: Seq<EventView>)
    requires
        !status.is_mutable_spec(),
    ensures
        run(status, seq![EventView::CacheMissing]) == seq![Reply::ReadCache, Reply::Request],
        run(status, seq![EventView::CacheFailed] + later) == seq![
            Reply::ReadCache,
            Reply::Fail(ResolveError::CacheUnreadable),
        ],
{
    let m = seq![EventView::CacheMissing];
    assert(m.drop_first().len() == 0);
    assert(trace(Stage::AwaitResponse, Seq::<u8>::empty(), m.drop_first()) == Seq::<Reply>::empty());
    assert(trace(Stage::AwaitCache, Seq::<u8>::empty(), m) =~= seq![Reply::Request]);
    assert(run(status, m) =~= seq![Reply::ReadCache, Reply::Request]);
    let f = seq![EventView::CacheFailed] + later;
    assert(f[0] == EventView::CacheFailed);
    assert(trace(Stage::Finished, Seq::<u8>::empty(), f.drop_first()) == Seq::<Reply>::empty());
    assert(trace(Stage::AwaitCache, Seq::<u8>::empty(), f) =~= seq![
        Reply::Fail(ResolveError::CacheUnreadable),
    ]);
    assert(run(status, f) =~= seq![Reply::ReadCache, Reply::Fail(ResolveError::CacheUnreadable)]);
}

/// The bytes a fetch writes to the cache are the bytes it received, and when
/// the cache later hands those bytes back, the document delivered is the one
/// the fetch delivered.
pub proof fn lemma_cache_round_trip(body: Seq<u8>, prior: Seq<u8>, t: Seq<char>)
    ensures
        next(Stage::AwaitBody, prior, EventView::Body(body)).2 == Reply::Persist(body),
        next(Stage::AwaitPersist, body, EventView::Persisted).2 == Reply::Deliver(t) <==> next(
            Stage::AwaitCache,
            prior,
            EventView::CacheFound(body),
        ).2 == Reply::Deliver(t),
{
}

} // verus!
