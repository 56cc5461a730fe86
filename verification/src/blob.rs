//! The handler of blob requests.
//!
//! A blob is looked up in the cache by its digest alone. A hit is streamed from
//! the cache. Anything else is a miss: the blob is fetched from the upstream
//! and fanned out to the client and to the cache at once, while its digest is
//! checked (see [`crate::fanout`]). The handler decides; its caller performs
//! each action and reports what came of it.

use vstd::prelude::*;
use vstd::string::*;

use crate::api::blob_path;
use crate::api::BlobRequest;
use crate::api::BlobRequestView;
use crate::digest::BlobDigest;
use crate::error::Error;
use crate::fanout::Producer;
use crate::fanout::ProducerView;
use crate::storage::content_length;
use crate::storage::age_at;
use crate::storage::declared_length;
use crate::storage::read_outcome;
use crate::storage::StorageError;

verus! {

/// What the handler waits for.
#[derive(Clone, Copy, Debug, PartialEq, Eq, Structural)]
pub enum BlobPhase {
    /// The settings of the namespace.
    Lookup,
    /// The answer of the cache.
    Probe,
    /// The upstream's answer to the authentication.
    Authenticate,
    /// The upstream's answer to the fetch, which named the namespace if
    /// `scoped`.
    Fetch { scoped: bool },
    /// Nothing: the handler's part of the request is over.
    Done,
}

/// What the caller reports to the handler.
#[derive(Clone, Copy, Debug, PartialEq, Eq, Structural)]
pub enum BlobEvent {
    /// The greatest age in nanoseconds at which the namespace serves a cached
    /// blob; `None` where no upstream is configured for the namespace.
    Namespace(Option<u128>),
    /// The cache holds the blob.
    Cached,
    /// The cache gave no object, for the reason named.
    Absent(StorageError),
    /// Whether the upstream accepted the authentication.
    Authenticated(bool),
    /// The upstream answers with the blob as a stream, of the length that it
    /// declares, if it declares one.
    Fetched { length: Option<u64> },
    /// The upstream refused the fetch. `retry_without_namespace` says whether
    /// the refusal is one that a fetch without the namespace may get round.
    FetchFailed { retry_without_namespace: bool },
}

/// What the caller does next.
#[derive(Clone, Copy, Debug, PartialEq, Eq, Structural)]
pub enum BlobAction {
    /// Look up the settings of the handler's namespace.
    LookupNamespace,
    /// Read the object under the handler's storage path from the cache,
    /// unless it is older than `max_age` nanoseconds.
    Probe { max_age: u128 },
    /// Count a cache hit for the namespace, and answer with the cached bytes.
    StreamCached,
    /// Count a cache miss for the namespace, and authenticate with its
    /// upstream for the handler's scope.
    Authenticate,
    /// Ask the upstream for the blob of the handler's image and digest,
    /// naming the namespace only if `scoped`.
    Fetch { scoped: bool },
    /// Fan the upstream's stream out, with the handler's producer: answer the
    /// client with a body of `length` bytes, and write the same stream to the
    /// cache under the handler's storage path, declaring `declared` bytes.
    /// The answer does not wait for the write.
    FanOut { length: u64, declared: i64 },
    /// Fail the request.
    Fail(Error),
    /// Nothing: the handler's part of the request is over.
    Idle,
}

/// The handler of one blob request.
pub struct BlobHandler {
    request: BlobRequest,
    namespace: String,
    image: String,
    wanted: BlobDigest,
    phase: BlobPhase,
}

/// The state of a [`BlobHandler`]: the request, the namespace and the image
/// that it was resolved to, the hash that the blob should have, and what the
/// handler waits for.
pub struct BlobHandlerView {
    pub request: BlobRequestView,
    pub namespace: Seq<char>,
    pub image: Seq<char>,
    pub wanted: Seq<u8>,
    pub phase: BlobPhase,
}

impl View for BlobHandler {
    type V = BlobHandlerView;

    closed spec fn view(&self) -> BlobHandlerView {
        BlobHandlerView {
            request: self.request@,
            namespace: self.namespace@,
            image: self.image@,
            wanted: self.wanted@,
            phase: self.phase,
        }
    }
}

impl BlobHandlerView {
    /// This state, waiting for something else.
    pub open spec fn at(self, phase: BlobPhase) -> BlobHandlerView {
        BlobHandlerView { phase, ..self }
    }

    /// The key under which the blob is looked up, and written.
    pub open spec fn storage_path(self) -> Seq<char> {
        blob_path(self.request.digest)
    }

    /// The scope of the authentication: a pull of the image.
    pub open spec fn scope(self) -> Seq<char> {
        "repository:"@ + self.image + ":pull"@
    }
}

/// The handler's next state and action after an event.
///
/// Every failure of the cache's read is a miss, whatever its reason. A fetch
/// that named the namespace is tried once more without it where the upstream's
/// refusal calls for that; any other refusal fails the request. A blob whose
/// length the upstream does not declare cannot be streamed. An event that the
/// handler does not wait for fails the request.
pub open spec fn blob_step(h: BlobHandlerView, e: BlobEvent) -> (BlobHandlerView, BlobAction) {
    match (h.phase, e) {
        (BlobPhase::Done, _) => (h, BlobAction::Idle),
        (BlobPhase::Lookup, BlobEvent::Namespace(Some(max_age))) => (
            h.at(BlobPhase::Probe),
            BlobAction::Probe { max_age },
        ),
        (BlobPhase::Lookup, BlobEvent::Namespace(None)) => (
            h.at(BlobPhase::Done),
            BlobAction::Fail(Error::UnknownNamespace),
        ),
        (BlobPhase::Probe, BlobEvent::Cached) => (h.at(BlobPhase::Done), BlobAction::StreamCached),
        (BlobPhase::Probe, BlobEvent::Absent(_)) => (
            h.at(BlobPhase::Authenticate),
            BlobAction::Authenticate,
        ),
        (BlobPhase::Authenticate, BlobEvent::Authenticated(true)) => (
            h.at(BlobPhase::Fetch { scoped: true }),
            BlobAction::Fetch { scoped: true },
        ),
        (BlobPhase::Authenticate, BlobEvent::Authenticated(false)) => (
            h.at(BlobPhase::Done),
            BlobAction::Fail(Error::Upstream),
        ),
        (BlobPhase::Fetch { .. }, BlobEvent::Fetched { length: Some(length) }) => (
            h.at(BlobPhase::Done),
            BlobAction::FanOut { length, declared: declared_length(length as int) as i64 },
        ),
        (BlobPhase::Fetch { .. }, BlobEvent::Fetched { length: None }) => (
            h.at(BlobPhase::Done),
            BlobAction::Fail(Error::MissingContentLength),
        ),
        (
            BlobPhase::Fetch { scoped: true },
            BlobEvent::FetchFailed { retry_without_namespace: true },
        ) => (h.at(BlobPhase::Fetch { scoped: false }), BlobAction::Fetch { scoped: false }),
        (BlobPhase::Fetch { .. }, BlobEvent::FetchFailed { .. }) => (
            h.at(BlobPhase::Done),
            BlobAction::Fail(Error::Upstream),
        ),
        _ => (h.at(BlobPhase::Done), BlobAction::Fail(Error::OutOfOrder)),
    }
}

impl BlobHandler {
    /// A handler at its start, for a request that was resolved to `namespace`
    /// and `image`, of a blob with the hash `wanted`. Its first action is
    /// [`BlobAction::LookupNamespace`].
    pub fn new(request: BlobRequest, namespace: String, image: String, wanted: BlobDigest) -> (r:
        Self)
        ensures
            r@ == (BlobHandlerView {
                request: request@,
                namespace: namespace@,
                image: image@,
                wanted: wanted@,
                phase: BlobPhase::Lookup,
            }),
    {
        BlobHandler { request, namespace, image, wanted, phase: BlobPhase::Lookup }
    }

    /// The namespace of the request.
    pub fn namespace(&self) -> (r: &str)
        ensures
            r@ == self@.namespace,
    {
        self.namespace.as_str()
    }

    /// The image to ask the upstream for.
    pub fn image(&self) -> (r: &str)
        ensures
            r@ == self@.image,
    {
        self.image.as_str()
    }

    /// The digest to ask the upstream for, as the client wrote it.
    pub fn digest(&self) -> (r: &str)
        ensures
            r@ == self@.request.digest,
    {
        self.request.digest()
    }

    /// The hash that the blob should have.
    pub fn wanted(&self) -> (r: BlobDigest)
        ensures
            r@ == self@.wanted,
    {
        self.wanted
    }

    /// What the handler waits for.
    pub fn phase(&self) -> (r: BlobPhase)
        ensures
            r == self@.phase,
    {
        self.phase
    }

    /// The path of the request, for the log.
    pub fn http_path(&self) -> (r: String)
        ensures
            r@ == "/"@ + self@.request.image + "/blobs/"@ + self@.request.digest,
    {
        self.request.http_path()
    }

    /// The key under which the blob is looked up, and written.
    pub fn storage_path(&self) -> (r: String)
        ensures
            r@ == self@.storage_path(),
    {
        self.request.storage_path()
    }

    /// The scope of the authentication with the upstream.
    pub fn scope(&self) -> (r: String)
        ensures
            r@ == self@.scope(),
    {
        let mut r = String::from_str("repository:");
        r.append(self.image.as_str());
        r.append(":pull");
        r
    }

    /// The producer of the fan-out, which has read nothing yet.
    pub fn producer(&self) -> (r: Producer)
        ensures
            r@ == (ProducerView::Reading { seen: Seq::<u8>::empty(), wanted: self@.wanted }),
    {
        Producer::new(self.wanted)
    }

    /// Takes one event: see [`blob_step`].
    pub fn step(self, event: BlobEvent) -> (r: (BlobHandler, BlobAction))
        ensures
            (r.0@, r.1) == blob_step(self@, event),
    {
        let mut h = self;
        match (h.phase, event) {
            (BlobPhase::Done, _) => (h, BlobAction::Idle),
            (BlobPhase::Lookup, BlobEvent::Namespace(Some(max_age))) => {
                h.phase = BlobPhase::Probe;
                (h, BlobAction::Probe { max_age })
            },
            (BlobPhase::Lookup, BlobEvent::Namespace(None)) => {
                h.phase = BlobPhase::Done;
                (h, BlobAction::Fail(Error::UnknownNamespace))
            },
            (BlobPhase::Probe, BlobEvent::Cached) => {
                h.phase = BlobPhase::Done;
                (h, BlobAction::StreamCached)
            },
            (BlobPhase::Probe, BlobEvent::Absent(_)) => {
                h.phase = BlobPhase::Authenticate;
                (h, BlobAction::Authenticate)
            },
            (BlobPhase::Authenticate, BlobEvent::Authenticated(true)) => {
                h.phase = BlobPhase::Fetch { scoped: true };
                (h, BlobAction::Fetch { scoped: true })
            },
            (BlobPhase::Authenticate, BlobEvent::Authenticated(false)) => {
                h.phase = BlobPhase::Done;
                (h, BlobAction::Fail(Error::Upstream))
            },
            (BlobPhase::Fetch { .. }, BlobEvent::Fetched { length: Some(length) }) => {
                h.phase = BlobPhase::Done;
                (h, BlobAction::FanOut { length, declared: content_length(length) })
            },
            (BlobPhase::Fetch { .. }, BlobEvent::Fetched { length: None }) => {
                h.phase = BlobPhase::Done;
                (h, BlobAction::Fail(Error::MissingContentLength))
            },
            (
                BlobPhase::Fetch { scoped: true },
                BlobEvent::FetchFailed { retry_without_namespace: true },
            ) => {
                h.phase = BlobPhase::Fetch { scoped: false };
                (h, BlobAction::Fetch { scoped: false })
            },
            (BlobPhase::Fetch { .. }, BlobEvent::FetchFailed { .. }) => {
                h.phase = BlobPhase::Done;
                (h, BlobAction::Fail(Error::Upstream))
            },
            _ => {
                h.phase = BlobPhase::Done;
                (h, BlobAction::Fail(Error::OutOfOrder))
            },
        }
    }
}

/// The actions of a handler in state `h` over a run of events, in order.
pub open spec fn blob_actions(h: BlobHandlerView, events: Seq<BlobEvent>) -> Seq<BlobAction>
    decreases events.len(),
{
    if events.len() == 0 {
        Seq::empty()
    } else {
        let (next, action) = blob_step(h, events[0]);
        seq![action] + blob_actions(next, events.drop_first())
    }
}

/// A run has one action for each event: the first is the step's, the others
/// are those of the next state over the rest of the events.
pub proof fn lemma_actions_unfold(h: BlobHandlerView, events: Seq<BlobEvent>)
    ensures
        blob_actions(h, events).len() == events.len(),
        events.len() > 0 ==> blob_actions(h, events)[0] == blob_step(h, events[0]).1,
        forall|i: int|
            0 < i < events.len() ==> blob_actions(h, events)[i] == #[trigger] blob_actions(
                blob_step(h, events[0]).0,
                events.drop_first(),
            )[i - 1],
    decreases events.len(),
{
    if events.len() > 0 {
        lemma_actions_unfold(blob_step(h, events[0]).0, events.drop_first());
    }
}

/// Whether an action asks something of the upstream.
pub open spec fn calls_upstream(a: BlobAction) -> bool {
    a is Authenticate || a is Fetch || a is FanOut
}

/// Every step leaves the request, the namespace, the image and the hash as
/// they are, and with them the storage path and the scope.
pub proof fn lemma_step_keeps_request(h: BlobHandlerView, e: BlobEvent)
    ensures
        blob_step(h, e).0.request == h.request,
        blob_step(h, e).0.namespace == h.namespace,
        blob_step(h, e).0.image == h.image,
        blob_step(h, e).0.wanted == h.wanted,
        blob_step(h, e).0.storage_path() == h.storage_path(),
        blob_step(h, e).0.scope() == h.scope(),
{
}

/// The upstream is asked only after the cache has reported a miss: where an
/// action of a run calls the upstream, the cache's answer came before it and
/// was a miss.
pub proof fn lemma_upstream_only_after_miss(h: BlobHandlerView, events: Seq<BlobEvent>, i: int)
    requires
        h.phase is Lookup || h.phase is Probe || h.phase is Done,
        0 <= i < events.len(),
        calls_upstream(blob_actions(h, events)[i]),
    ensures
        exists|j: int| 0 <= j <= i && (#[trigger] events[j]) is Absent,
    decreases events.len(),
{
    let (next, action) = blob_step(h, events[0]);
    let rest = events.drop_first();
    lemma_actions_unfold(h, events);
    if h.phase is Probe && events[0] is Absent {
        assert(events[0] is Absent);
    } else {
        assert(!calls_upstream(action));
        assert(blob_actions(h, events)[i] == blob_actions(next, rest)[i - 1]);
        lemma_upstream_only_after_miss(next, rest, i - 1);
        let j = choose|j: int| 0 <= j <= i - 1 && (#[trigger] rest[j]) is Absent;
        assert(events[j + 1] is Absent);
    }
}

/// A handler whose part of the request is over does nothing more.
pub proof fn lemma_done_is_final(h: BlobHandlerView, events: Seq<BlobEvent>, i: int)
    requires
        h.phase is Done,
        0 <= i < events.len(),
    ensures
        blob_actions(h, events)[i] == BlobAction::Idle,
    decreases events.len(),
{
    lemma_actions_unfold(h, events);
    if i > 0 {
        lemma_done_is_final(h, events.drop_first(), i - 1);
    }
}

/// A cache hit ends the handler's part without the upstream: the cached bytes
/// are streamed, and whatever is reported after that, nothing more is done.
pub proof fn lemma_hit_is_served_from_cache(h: BlobHandlerView, events: Seq<BlobEvent>, i: int)
    requires
        h.phase is Probe,
        0 <= i < events.len(),
    ensures
        blob_step(h, BlobEvent::Cached).1 == BlobAction::StreamCached,
        blob_actions(blob_step(h, BlobEvent::Cached).0, events)[i] == BlobAction::Idle,
{
    lemma_done_is_final(blob_step(h, BlobEvent::Cached).0, events, i);
}

/// An object that is older than the namespace allows counts as absent: the
/// cache's read refuses it, and the handler answers that refusal as it answers
/// any other failure of the read. The fan-out that follows a miss writes under
/// the key that was looked up, so that the old object is replaced.
pub proof fn lemma_stale_is_absent(
    h: BlobHandlerView,
    modified: int,
    content_length: int,
    now: int,
    invalidation: int,
    other: StorageError,
)
    requires
        age_at(now, modified) > invalidation,
    ensures
        read_outcome(modified, content_length, now, invalidation) is Err,
        blob_step(
            h,
            BlobEvent::Absent(read_outcome(modified, content_length, now, invalidation)->Err_0),
        ) == blob_step(h, BlobEvent::Absent(other)),
{
}

/// The way from a miss to the fan-out: the upstream is authenticated with and
/// asked for the blob, and its stream is fanned out with the length that it
/// declared, under the key that was looked up. Without a declared length the
/// request fails.
pub proof fn lemma_miss_is_fanned_out(h: BlobHandlerView, reason: StorageError, length: u64)
    requires
        h.phase is Probe,
    ensures
        ({
            let missed = blob_step(h, BlobEvent::Absent(reason));
            let authenticated = blob_step(missed.0, BlobEvent::Authenticated(true));
            let fetched = blob_step(authenticated.0, BlobEvent::Fetched { length: Some(length) });
            let undeclared = blob_step(authenticated.0, BlobEvent::Fetched { length: None });
            &&& missed.1 == BlobAction::Authenticate
            &&& authenticated.1 == BlobAction::Fetch { scoped: true }
            &&& fetched.1 == BlobAction::FanOut {
                length,
                declared: declared_length(length as int) as i64,
            }
            &&& fetched.0.storage_path() == h.storage_path()
            &&& fetched.0.wanted == h.wanted
            &&& undeclared.1 == BlobAction::Fail(Error::MissingContentLength)
        }),
{
}

/// A fetch is tried again at most once, and only without the namespace after
/// the upstream refused the fetch that named it in the way that calls for it.
/// The second refusal fails the request, whatever it is.
pub proof fn lemma_one_retry(h: BlobHandlerView, retry: bool, again: bool)
    requires
        h.phase == (BlobPhase::Fetch { scoped: true }),
    ensures
        ({
            let first = blob_step(h, BlobEvent::FetchFailed { retry_without_namespace: retry });
            let second = blob_step(
                first.0,
                BlobEvent::FetchFailed { retry_without_namespace: again },
            );
            &&& retry ==> first.1 == BlobAction::Fetch { scoped: false }
            &&& retry ==> second.1 == BlobAction::Fail(Error::Upstream)
            &&& !retry ==> first.1 == BlobAction::Fail(Error::Upstream)
            &&& !retry ==> second.1 == BlobAction::Idle
        }),
{
}

} // verus!
