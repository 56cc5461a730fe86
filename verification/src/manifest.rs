//! The handler of manifest requests.
//!
//! A manifest is looked up in the cache first. A hit is served from the cache.
//! Anything else is a miss: the manifest is fetched from the upstream, written
//! to the cache under the key that was looked up, and served. The handler
//! decides; its caller performs each action and reports what came of it.

use vstd::prelude::*;
use vstd::string::*;

use crate::api::manifest_path;
use crate::api::ManifestRequest;
use crate::api::ManifestRequestView;
use crate::error::Error;
use crate::storage::age_at;
use crate::storage::read_outcome;
use crate::storage::StorageError;

verus! {

/// The manifest of an image, as the upstream sent it.
pub struct Manifest {
    pub manifest: Vec<u8>,
    pub media_type: String,
    pub digest: Option<String>,
}

/// What a [`Manifest`] holds.
pub struct ManifestView {
    pub manifest: Seq<u8>,
    pub media_type: Seq<char>,
    pub digest: Option<Seq<char>>,
}

impl View for Manifest {
    type V = ManifestView;

    open spec fn view(&self) -> ManifestView {
        ManifestView {
            manifest: self.manifest@,
            media_type: self.media_type@,
            digest: match self.digest {
                Some(d) => Some(d@),
                None => None,
            },
        }
    }
}

impl Manifest {
    /// A manifest of the given bytes and media type, with the digest that the
    /// upstream gave for it, if any.
    pub fn new(manifest: Vec<u8>, media_type: String, digest: Option<String>) -> (r: Self)
        ensures
            r.manifest == manifest,
            r.media_type == media_type,
            r.digest == digest,
    {
        Manifest { manifest, media_type, digest }
    }
}

/// The answer to a request: the status, the headers by name and value in
/// the order in which they are sent, and the body.
pub struct Response {
    pub status: u16,
    pub headers: Vec<(String, String)>,
    pub body: Vec<u8>,
}

/// What a [`Response`] holds.
pub struct ResponseView {
    pub status: u16,
    pub headers: Seq<(Seq<char>, Seq<char>)>,
    pub body: Seq<u8>,
}

impl View for Response {
    type V = ResponseView;

    open spec fn view(&self) -> ResponseView {
        ResponseView {
            status: self.status,
            headers: Seq::new(
                self.headers@.len(),
                |i: int| (self.headers@[i].0@, self.headers@[i].1@),
            ),
            body: self.body@,
        }
    }
}

/// The response that serves a manifest: the status 200, the manifest's bytes
/// as the body, its media type as the content type, and its digest in a header
/// of its own where the upstream gave one.
pub open spec fn response_of(m: ManifestView) -> ResponseView {
    ResponseView {
        status: 200,
        headers: match m.digest {
            Some(d) => seq![("content-type"@, m.media_type), ("docker-content-digest"@, d)],
            None => seq![("content-type"@, m.media_type)],
        },
        body: m.manifest,
    }
}

/// The response that serves a manifest: see [`response_of`].
pub fn manifest_response(manifest: Manifest) -> (r: Response)
    ensures
        r@ == response_of(manifest@),
{
    let mut headers: Vec<(String, String)> = Vec::new();
    headers.push((String::from_str("content-type"), manifest.media_type));
    if let Some(d) = manifest.digest {
        headers.push((String::from_str("docker-content-digest"), d));
    }
    let r = Response { status: 200, headers, body: manifest.manifest };
    assert(r@.headers =~= response_of(manifest@).headers);
    r
}

/// What the handler waits for.
#[derive(Clone, Copy, Debug, PartialEq, Eq, Structural)]
pub enum ManifestPhase {
    /// The settings of the namespace.
    Lookup,
    /// The answer of the cache.
    Probe,
    /// The upstream's answer to the authentication.
    Authenticate,
    /// The upstream's answer to the fetch, which named the namespace if
    /// `scoped`.
    Fetch { scoped: bool },
    /// The end of the write to the cache.
    Write,
    /// Nothing: the request is over.
    Done,
}

/// What the caller reports to the handler.
pub enum ManifestEvent {
    /// The greatest age in nanoseconds at which the namespace serves a cached
    /// manifest; `None` where no upstream is configured for the namespace.
    Namespace(Option<u128>),
    /// The cache holds the manifest.
    Cached(Manifest),
    /// The cache holds an object under the key, but no manifest could be read
    /// from it.
    Unreadable,
    /// The cache gave no object, for the reason named.
    Absent(StorageError),
    /// Whether the upstream accepted the authentication.
    Authenticated(bool),
    /// The upstream sent the manifest.
    Fetched(Manifest),
    /// The upstream refused the fetch. `retry_without_namespace` says whether
    /// the refusal is one that a fetch without the namespace may get round.
    FetchFailed { retry_without_namespace: bool },
    /// Whether the manifest was written to the cache.
    Written(bool),
}

/// A [`ManifestEvent`] over the views of what it holds.
pub enum ManifestEventView {
    Namespace(Option<u128>),
    Cached(ManifestView),
    Unreadable,
    Absent(StorageError),
    Authenticated(bool),
    Fetched(ManifestView),
    FetchFailed { retry_without_namespace: bool },
    Written(bool),
}

impl View for ManifestEvent {
    type V = ManifestEventView;

    open spec fn view(&self) -> ManifestEventView {
        match self {
            ManifestEvent::Namespace(a) => ManifestEventView::Namespace(*a),
            ManifestEvent::Cached(m) => ManifestEventView::Cached(m@),
            ManifestEvent::Unreadable => ManifestEventView::Unreadable,
            ManifestEvent::Absent(e) => ManifestEventView::Absent(*e),
            ManifestEvent::Authenticated(ok) => ManifestEventView::Authenticated(*ok),
            ManifestEvent::Fetched(m) => ManifestEventView::Fetched(m@),
            ManifestEvent::FetchFailed { retry_without_namespace } => ManifestEventView::FetchFailed {
                retry_without_namespace: *retry_without_namespace,
            },
            ManifestEvent::Written(ok) => ManifestEventView::Written(*ok),
        }
    }
}

/// What the caller does next.
#[derive(Clone, Copy, Debug, PartialEq, Eq, Structural)]
pub enum ManifestAction {
    /// Look up the settings of the handler's namespace.
    LookupNamespace,
    /// Read the object under the handler's storage path from the cache,
    /// unless it is older than `max_age` nanoseconds.
    Probe { max_age: u128 },
    /// Count a cache hit for the namespace, and answer with the handler's
    /// response.
    ServeCached,
    /// Count a cache miss for the namespace, and authenticate with its
    /// upstream for the handler's scope.
    Authenticate,
    /// Ask the upstream for the manifest of the handler's image and
    /// reference, naming the namespace only if `scoped`.
    Fetch { scoped: bool },
    /// Write the manifest that the handler holds to the cache, under the
    /// handler's storage path.
    Store,
    /// Answer with the handler's response.
    ServeFetched,
    /// Fail the request.
    Fail(Error),
    /// Nothing: the request is over.
    Idle,
}

/// The handler of one manifest request.
pub struct ManifestHandler {
    request: ManifestRequest,
    namespace: String,
    image: String,
    phase: ManifestPhase,
    manifest: Option<Manifest>,
}

/// The state of a [`ManifestHandler`]: the request, the namespace and the
/// image that it was resolved to, what the handler waits for, and the manifest
/// that it has got, from the cache or from the upstream.
pub struct ManifestHandlerView {
    pub request: ManifestRequestView,
    pub namespace: Seq<char>,
    pub image: Seq<char>,
    pub phase: ManifestPhase,
    pub manifest: Option<ManifestView>,
}

impl View for ManifestHandler {
    type V = ManifestHandlerView;

    closed spec fn view(&self) -> ManifestHandlerView {
        ManifestHandlerView {
            request: self.request@,
            namespace: self.namespace@,
            image: self.image@,
            phase: self.phase,
            manifest: match self.manifest {
                Some(m) => Some(m@),
                None => None,
            },
        }
    }
}

impl ManifestHandlerView {
    /// This state, waiting for something else.
    pub open spec fn at(self, phase: ManifestPhase) -> ManifestHandlerView {
        ManifestHandlerView { phase, ..self }
    }

    /// This state, holding the manifest `m`.
    pub open spec fn holding(self, m: ManifestView) -> ManifestHandlerView {
        ManifestHandlerView { manifest: Some(m), ..self }
    }

    /// The key under which the manifest is looked up, and written.
    pub open spec fn storage_path(self) -> Seq<char> {
        manifest_path(self.namespace, self.request.image, self.request.reference)
    }

    /// The scope of the authentication: a pull of the image.
    pub open spec fn scope(self) -> Seq<char> {
        "repository:"@ + self.image + ":pull"@
    }
}

/// The handler's next state and action after an event.
///
/// Every failure of the cache's read is a miss, whatever its reason. A fetch
/// that named the namespace is tried once more without it where the upstream's
/// refusal calls for that; any other refusal fails the request. The write to
/// the cache does not decide the answer. An event that the handler does not
/// wait for fails the request.
pub open spec fn manifest_step(h: ManifestHandlerView, e: ManifestEventView) -> (
    ManifestHandlerView,
    ManifestAction,
) {
    match (h.phase, e) {
        (ManifestPhase::Done, _) => (h, ManifestAction::Idle),
        (ManifestPhase::Lookup, ManifestEventView::Namespace(Some(max_age))) => (
            h.at(ManifestPhase::Probe),
            ManifestAction::Probe { max_age },
        ),
        (ManifestPhase::Lookup, ManifestEventView::Namespace(None)) => (
            h.at(ManifestPhase::Done),
            ManifestAction::Fail(Error::UnknownNamespace),
        ),
        (ManifestPhase::Probe, ManifestEventView::Cached(m)) => (
            h.holding(m).at(ManifestPhase::Done),
            ManifestAction::ServeCached,
        ),
        (ManifestPhase::Probe, ManifestEventView::Unreadable) => (
            h.at(ManifestPhase::Done),
            ManifestAction::Fail(Error::UnreadableCacheEntry),
        ),
        (ManifestPhase::Probe, ManifestEventView::Absent(_)) => (
            h.at(ManifestPhase::Authenticate),
            ManifestAction::Authenticate,
        ),
        (ManifestPhase::Authenticate, ManifestEventView::Authenticated(true)) => (
            h.at(ManifestPhase::Fetch { scoped: true }),
            ManifestAction::Fetch { scoped: true },
        ),
        (ManifestPhase::Authenticate, ManifestEventView::Authenticated(false)) => (
            h.at(ManifestPhase::Done),
            ManifestAction::Fail(Error::Upstream),
        ),
        (ManifestPhase::Fetch { .. }, ManifestEventView::Fetched(m)) => (
            h.holding(m).at(ManifestPhase::Write),
            ManifestAction::Store,
        ),
        (
            ManifestPhase::Fetch { scoped: true },
            ManifestEventView::FetchFailed { retry_without_namespace: true },
        ) => (h.at(ManifestPhase::Fetch { scoped: false }), ManifestAction::Fetch { scoped: false }),
        (ManifestPhase::Fetch { .. }, ManifestEventView::FetchFailed { .. }) => (
            h.at(ManifestPhase::Done),
            ManifestAction::Fail(Error::Upstream),
        ),
        (ManifestPhase::Write, ManifestEventView::Written(_)) => (
            h.at(ManifestPhase::Done),
            ManifestAction::ServeFetched,
        ),
        _ => (h.at(ManifestPhase::Done), ManifestAction::Fail(Error::OutOfOrder)),
    }
}

impl ManifestHandler {
    /// A handler at its start, for a request that was resolved to `namespace`
    /// and `image`. Its first action is [`ManifestAction::LookupNamespace`].
    pub fn new(request: ManifestRequest, namespace: String, image: String) -> (r: Self)
        ensures
            r@ == (ManifestHandlerView {
                request: request@,
                namespace: namespace@,
                image: image@,
                phase: ManifestPhase::Lookup,
                manifest: None,
            }),
    {
        ManifestHandler { request, namespace, image, phase: ManifestPhase::Lookup, manifest: None }
    }

    /// The namespace of the request.
    pub fn namespace(&self) -> (r: &str)
        ensures
            r@ == self@.namespace,
    {
        self.namespace.as_str()
    }

    /// The image to ask the upstream for.
    pub fn image(&self) -> (r: &str)
        ensures
            r@ == self@.image,
    {
        self.image.as_str()
    }

    /// The tag or digest to ask the upstream for.
    pub fn reference(&self) -> (r: &str)
        ensures
            r@ == self@.request.reference,
    {
        self.request.reference()
    }

    /// What the handler waits for.
    pub fn phase(&self) -> (r: ManifestPhase)
        ensures
            r == self@.phase,
    {
        self.phase
    }

    /// The manifest that the handler holds, if any.
    pub fn manifest(&self) -> (r: Option<&Manifest>)
        ensures
            match r {
                Some(m) => self@.manifest == Some(m@),
                None => self@.manifest is None,
            },
    {
        match &self.manifest {
            Some(m) => Some(m),
            None => None,
        }
    }

    /// The key under which the manifest is looked up, and written.
    pub fn storage_path(&self) -> (r: String)
        ensures
            r@ == self@.storage_path(),
    {
        self.request.storage_path(self.namespace.as_str())
    }

    /// The scope of the authentication with the upstream.
    pub fn scope(&self) -> (r: String)
        ensures
            r@ == self@.scope(),
    {
        let mut r = String::from_str("repository:");
        r.append(self.image.as_str());
        r.append(":pull");
        r
    }

    /// The response that serves the manifest that the handler holds; `None`
    /// where it holds none.
    pub fn response(self) -> (r: Option<Response>)
        ensures
            match r {
                Some(response) => self@.manifest is Some && response@ == response_of(
                    self@.manifest->0,
                ),
                None => self@.manifest is None,
            },
    {
        match self.manifest {
            Some(m) => Some(manifest_response(m)),
            None => None,
        }
    }

    /// Takes one event: see [`manifest_step`].
    pub fn step(self, event: ManifestEvent) -> (r: (ManifestHandler, ManifestAction))
        ensures
            (r.0@, r.1) == manifest_step(self@, event@),
    {
        let mut h = self;
        match (h.phase, event) {
            (ManifestPhase::Done, _) => (h, ManifestAction::Idle),
            (ManifestPhase::Lookup, ManifestEvent::Namespace(Some(max_age))) => {
                h.phase = ManifestPhase::Probe;
                (h, ManifestAction::Probe { max_age })
            },
            (ManifestPhase::Lookup, ManifestEvent::Namespace(None)) => {
                h.phase = ManifestPhase::Done;
                (h, ManifestAction::Fail(Error::UnknownNamespace))
            },
            (ManifestPhase::Probe, ManifestEvent::Cached(m)) => {
                h.manifest = Some(m);
                h.phase = ManifestPhase::Done;
                (h, ManifestAction::ServeCached)
            },
            (ManifestPhase::Probe, ManifestEvent::Unreadable) => {
                h.phase = ManifestPhase::Done;
                (h, ManifestAction::Fail(Error::UnreadableCacheEntry))
            },
            (ManifestPhase::Probe, ManifestEvent::Absent(_)) => {
                h.phase = ManifestPhase::Authenticate;
                (h, ManifestAction::Authenticate)
            },
            (ManifestPhase::Authenticate, ManifestEvent::Authenticated(true)) => {
                h.phase = ManifestPhase::Fetch { scoped: true };
                (h, ManifestAction::Fetch { scoped: true })
            },
            (ManifestPhase::Authenticate, ManifestEvent::Authenticated(false)) => {
                h.phase = ManifestPhase::Done;
                (h, ManifestAction::Fail(Error::Upstream))
            },
            (ManifestPhase::Fetch { .. }, ManifestEvent::Fetched(m)) => {
                h.manifest = Some(m);
                h.phase = ManifestPhase::Write;
                (h, ManifestAction::Store)
            },
            (
                ManifestPhase::Fetch { scoped: true },
                ManifestEvent::FetchFailed { retry_without_namespace: true },
            ) => {
                h.phase = ManifestPhase::Fetch { scoped: false };
                (h, ManifestAction::Fetch { scoped: false })
            },
            (ManifestPhase::Fetch { .. }, ManifestEvent::FetchFailed { .. }) => {
                h.phase = ManifestPhase::Done;
                (h, ManifestAction::Fail(Error::Upstream))
            },
            (ManifestPhase::Write, ManifestEvent::Written(_)) => {
                h.phase = ManifestPhase::Done;
                (h, ManifestAction::ServeFetched)
            },
            _ => {
                h.phase = ManifestPhase::Done;
                (h, ManifestAction::Fail(Error::OutOfOrder))
            },
        }
    }
}

/// The actions of a handler in state `h` over a run of events, in order.
pub open spec fn manifest_actions(h: ManifestHandlerView, events: Seq<ManifestEventView>) -> Seq<
    ManifestAction,
>
    decreases events.len(),
{
    if events.len() == 0 {
        Seq::empty()
    } else {
        let (next, action) = manifest_step(h, events[0]);
        seq![action] + manifest_actions(next, events.drop_first())
    }
}

/// A run has one action for each event: the first is the step's, the others
/// are those of the next state over the rest of the events.
pub proof fn lemma_actions_unfold(h: ManifestHandlerView, events: Seq<ManifestEventView>)
    ensures
        manifest_actions(h, events).len() == events.len(),
        events.len() > 0 ==> manifest_actions(h, events)[0] == manifest_step(h, events[0]).1,
        forall|i: int|
            0 < i < events.len() ==> manifest_actions(h, events)[i] == #[trigger] manifest_actions(
                manifest_step(h, events[0]).0,
                events.drop_first(),
            )[i - 1],
    decreases events.len(),
{
    if events.len() > 0 {
        lemma_actions_unfold(manifest_step(h, events[0]).0, events.drop_first());
    }
}

/// Whether an action asks something of the upstream.
pub open spec fn calls_upstream(a: ManifestAction) -> bool {
    a is Authenticate || a is Fetch
}

/// Every step leaves the request, the namespace and the image as they are, and
/// with them the storage path and the scope.
pub proof fn lemma_step_keeps_request(h: ManifestHandlerView, e: ManifestEventView)
    ensures
        manifest_step(h, e).0.request == h.request,
        manifest_step(h, e).0.namespace == h.namespace,
        manifest_step(h, e).0.image == h.image,
        manifest_step(h, e).0.storage_path() == h.storage_path(),
        manifest_step(h, e).0.scope() == h.scope(),
{
}

/// The upstream is asked only after the cache has reported a miss: where an
/// action of a run calls the upstream, the cache's answer came before it and
/// was a miss.
pub proof fn lemma_upstream_only_after_miss(
    h: ManifestHandlerView,
    events: Seq<ManifestEventView>,
    i: int,
)
    requires
        h.phase is Lookup || h.phase is Probe || h.phase is Done,
        0 <= i < events.len(),
        calls_upstream(manifest_actions(h, events)[i]),
    ensures
        exists|j: int| 0 <= j <= i && (#[trigger] events[j]) is Absent,
    decreases events.len(),
{
    let (next, action) = manifest_step(h, events[0]);
    let rest = events.drop_first();
    lemma_actions_unfold(h, events);
    if h.phase is Probe && events[0] is Absent {
        assert(events[0] is Absent);
    } else {
        assert(!calls_upstream(action));
        assert(manifest_actions(h, events)[i] == manifest_actions(next, rest)[i - 1]);
        lemma_upstream_only_after_miss(next, rest, i - 1);
        let j = choose|j: int| 0 <= j <= i - 1 && (#[trigger] rest[j]) is Absent;
        assert(events[j + 1] is Absent);
    }
}

/// A cache hit ends the request without the upstream: the manifest that the
/// cache gave is served, and whatever is reported after that, nothing more is
/// done.
pub proof fn lemma_hit_is_served_from_cache(
    h: ManifestHandlerView,
    m: ManifestView,
    events: Seq<ManifestEventView>,
    i: int,
)
    requires
        h.phase is Probe,
        0 <= i < events.len(),
    ensures
        manifest_step(h, ManifestEventView::Cached(m)).1 == ManifestAction::ServeCached,
        manifest_step(h, ManifestEventView::Cached(m)).0.manifest == Some(m),
        manifest_actions(manifest_step(h, ManifestEventView::Cached(m)).0, events)[i]
            == ManifestAction::Idle,
    decreases events.len(),
{
    let done = manifest_step(h, ManifestEventView::Cached(m)).0;
    lemma_done_is_final(done, events, i);
}

/// A handler whose request is over does nothing more.
pub proof fn lemma_done_is_final(h: ManifestHandlerView, events: Seq<ManifestEventView>, i: int)
    requires
        h.phase is Done,
        0 <= i < events.len(),
    ensures
        manifest_actions(h, events)[i] == ManifestAction::Idle,
    decreases events.len(),
{
    lemma_actions_unfold(h, events);
    if i > 0 {
        lemma_done_is_final(h, events.drop_first(), i - 1);
    }
}

/// An object that is older than the namespace allows counts as absent: the
/// cache's read refuses it, the handler answers that refusal as it answers any
/// other failure of the read, and on the way that both take the manifest is
/// written under the key that was looked up, so that the old object is
/// replaced.
pub proof fn lemma_stale_is_absent(
    h: ManifestHandlerView,
    modified: int,
    content_length: int,
    now: int,
    invalidation: int,
    other: StorageError,
)
    requires
        age_at(now, modified) > invalidation,
    ensures
        read_outcome(modified, content_length, now, invalidation) is Err,
        manifest_step(
            h,
            ManifestEventView::Absent(
                read_outcome(modified, content_length, now, invalidation)->Err_0,
            ),
        ) == manifest_step(h, ManifestEventView::Absent(other)),
{
}

/// The manifest that was fetched is written under the key that was looked up:
/// from the miss to the write, the storage path does not change.
pub proof fn lemma_miss_is_written_back(
    h: ManifestHandlerView,
    reason: StorageError,
    m: ManifestView,
)
    requires
        h.phase is Probe,
    ensures
        ({
            let missed = manifest_step(h, ManifestEventView::Absent(reason));
            let authenticated = manifest_step(missed.0, ManifestEventView::Authenticated(true));
            let fetched = manifest_step(authenticated.0, ManifestEventView::Fetched(m));
            let written = manifest_step(fetched.0, ManifestEventView::Written(true));
            let unwritten = manifest_step(fetched.0, ManifestEventView::Written(false));
            &&& missed.1 == ManifestAction::Authenticate
            &&& authenticated.1 == ManifestAction::Fetch { scoped: true }
            &&& fetched.1 == ManifestAction::Store
            &&& fetched.0.manifest == Some(m)
            &&& fetched.0.storage_path() == h.storage_path()
            &&& written.1 == ManifestAction::ServeFetched
            &&& unwritten == written
            &&& written.0.manifest == Some(m)
        }),
{
}

/// A fetch is tried again at most once, and only without the namespace after
/// the upstream refused the fetch that named it in the way that calls for it.
/// The second refusal fails the request, whatever it is.
pub proof fn lemma_one_retry(h: ManifestHandlerView, retry: bool, again: bool)
    requires
        h.phase == (ManifestPhase::Fetch { scoped: true }),
    ensures
        ({
            let first = manifest_step(
                h,
                ManifestEventView::FetchFailed { retry_without_namespace: retry },
            );
            let second = manifest_step(
                first.0,
                ManifestEventView::FetchFailed { retry_without_namespace: again },
            );
            &&& retry ==> first.1 == ManifestAction::Fetch { scoped: false }
            &&& retry ==> second.1 == ManifestAction::Fail(Error::Upstream)
            &&& !retry ==> first.1 == ManifestAction::Fail(Error::Upstream)
            &&& !retry ==> second.1 == ManifestAction::Idle
        }),
{
}

} // verus!
