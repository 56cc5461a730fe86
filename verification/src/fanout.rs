//! The producer of a blob's fan-out.
//!
//! A blob that is fetched from the upstream goes to two consumers at once, the
//! client's response and the cache, over a bounded channel. The producer reads
//! the upstream's stream chunk by chunk, hashes what it reads and publishes each
//! chunk to both. At the clean end of the stream it compares the hash with the
//! digest that was asked for, and on a mismatch it publishes one last message,
//! an error, after the chunks that are already out.

use vstd::prelude::*;

use crate::digest::absorbed;
use crate::digest::hasher_finalize;
use crate::digest::hasher_new;
use crate::digest::hasher_update;
use crate::digest::sha256;
use crate::digest::BlobDigest;
use crate::digest::Hasher;
use crate::storage::StorageError;

verus! {

/// The number of chunks that the channel holds before the producer has to
/// wait for the slower consumer.
pub const CHANNEL_CAPACITY: usize = 16;

/// What the upstream's stream hands to the producer, and what the channel
/// reports back.
pub enum StreamEvent<'a> {
    /// The next chunk of the blob.
    Chunk(&'a [u8]),
    /// The stream failed.
    ReadError,
    /// The stream ended cleanly.
    End,
    /// The last message could not be published: every consumer is gone.
    Undelivered,
}

/// A [`StreamEvent`] with the chunk as a sequence of bytes.
pub enum StreamEventView {
    Chunk(Seq<u8>),
    ReadError,
    End,
    Undelivered,
}

impl<'a> View for StreamEvent<'a> {
    type V = StreamEventView;

    open spec fn view(&self) -> StreamEventView {
        match *self {
            StreamEvent::Chunk(c) => StreamEventView::Chunk(c@),
            StreamEvent::ReadError => StreamEventView::ReadError,
            StreamEvent::End => StreamEventView::End,
            StreamEvent::Undelivered => StreamEventView::Undelivered,
        }
    }
}

/// What the producer does after an event.
#[derive(Clone, Copy, Debug)]
pub enum ProducerAction {
    /// Publish the chunk that was read, and read on.
    PublishChunk,
    /// Publish the stream's failure, and stop.
    PublishReadError,
    /// The blob does not have the digest that was asked for: publish that as
    /// the last message, and stop. `actual` is the hash of what was read.
    PublishCorrupt { actual: BlobDigest },
    /// The blob is complete and has the digest that was asked for: stop.
    Finish,
    /// Nothing is left to do.
    Stop,
}

/// A [`ProducerAction`] with the hash as a sequence of bytes.
pub enum ProducerActionView {
    PublishChunk,
    PublishReadError,
    PublishCorrupt { actual: Seq<u8> },
    Finish,
    Stop,
}

impl View for ProducerAction {
    type V = ProducerActionView;

    open spec fn view(&self) -> ProducerActionView {
        match *self {
            ProducerAction::PublishChunk => ProducerActionView::PublishChunk,
            ProducerAction::PublishReadError => ProducerActionView::PublishReadError,
            ProducerAction::PublishCorrupt { actual } => ProducerActionView::PublishCorrupt {
                actual: actual@,
            },
            ProducerAction::Finish => ProducerActionView::Finish,
            ProducerAction::Stop => ProducerActionView::Stop,
        }
    }
}

/// The error that an action publishes, if it publishes one.
pub open spec fn error_of(a: ProducerActionView) -> Option<StorageError> {
    match a {
        ProducerActionView::PublishReadError => Some(StorageError::Upstream),
        ProducerActionView::PublishCorrupt { .. } => Some(StorageError::UpstreamDataCorrupt),
        _ => None,
    }
}

impl ProducerAction {
    /// The error that this action publishes, if it publishes one: see
    /// [`error_of`].
    pub fn error(&self) -> (r: Option<StorageError>)
        ensures
            r == error_of(self@),
    {
        match self {
            ProducerAction::PublishReadError => Some(StorageError::Upstream),
            ProducerAction::PublishCorrupt { .. } => Some(StorageError::UpstreamDataCorrupt),
            _ => None,
        }
    }
}

/// The state of the producer.
pub enum Producer {
    /// The stream is being read.
    Reading { hasher: Hasher, wanted: BlobDigest },
    /// The producer has stopped.
    Closed,
}

/// The state of the producer: while it reads, the bytes read so far and the
/// hash that all the bytes should have.
pub enum ProducerView {
    Reading { seen: Seq<u8>, wanted: Seq<u8> },
    Closed,
}

impl View for Producer {
    type V = ProducerView;

    open spec fn view(&self) -> ProducerView {
        match *self {
            Producer::Reading { hasher, wanted } => ProducerView::Reading {
                seen: absorbed(hasher),
                wanted: wanted@,
            },
            Producer::Closed => ProducerView::Closed,
        }
    }
}

/// The producer's last action at the clean end of a blob whose bytes have the
/// hash `actual`, where `wanted` was asked for.
pub open spec fn verdict_of(wanted: Seq<u8>, actual: Seq<u8>) -> ProducerActionView {
    if actual == wanted {
        ProducerActionView::Finish
    } else {
        ProducerActionView::PublishCorrupt { actual }
    }
}

/// Judges a blob that was read to its end by the hash of its bytes: see
/// [`verdict_of`].
pub fn verdict(wanted: &BlobDigest, actual: [u8; 32]) -> (r: ProducerAction)
    ensures
        r@ == verdict_of(wanted@, actual@),
{
    if wanted.matches(&actual) {
        ProducerAction::Finish
    } else {
        ProducerAction::PublishCorrupt { actual: BlobDigest::new(actual) }
    }
}

/// The producer's next state and action after an event.
pub open spec fn producer_step(p: ProducerView, e: StreamEventView) -> (
    ProducerView,
    ProducerActionView,
) {
    match p {
        ProducerView::Closed => (ProducerView::Closed, ProducerActionView::Stop),
        ProducerView::Reading { seen, wanted } => match e {
            StreamEventView::Chunk(c) => (
                ProducerView::Reading { seen: seen + c, wanted },
                ProducerActionView::PublishChunk,
            ),
            StreamEventView::ReadError => (ProducerView::Closed, ProducerActionView::PublishReadError),
            StreamEventView::Undelivered => (ProducerView::Closed, ProducerActionView::Stop),
            StreamEventView::End => (ProducerView::Closed, verdict_of(wanted, sha256(seen))),
        },
    }
}

impl Producer {
    /// A producer that has read nothing yet of a blob that should have the
    /// digest `wanted`.
    pub fn new(wanted: BlobDigest) -> (p: Self)
        ensures
            p@ == (ProducerView::Reading { seen: Seq::<u8>::empty(), wanted: wanted@ }),
    {
        Producer::Reading { hasher: hasher_new(), wanted }
    }

    /// Whether the producer has stopped.
    pub fn is_closed(&self) -> (r: bool)
        ensures
            r == (self@ is Closed),
    {
        match self {
            Producer::Closed => true,
            Producer::Reading { .. } => false,
        }
    }

    /// Takes one event: see [`producer_step`].
    pub fn step(self, event: StreamEvent<'_>) -> (r: (Producer, ProducerAction))
        ensures
            (r.0@, r.1@) == producer_step(self@, event@),
    {
        match self {
            Producer::Closed => (Producer::Closed, ProducerAction::Stop),
            Producer::Reading { mut hasher, wanted } => match event {
                StreamEvent::Chunk(c) => {
                    hasher_update(&mut hasher, c);
                    (Producer::Reading { hasher, wanted }, ProducerAction::PublishChunk)
                },
                StreamEvent::ReadError => (Producer::Closed, ProducerAction::PublishReadError),
                StreamEvent::Undelivered => (Producer::Closed, ProducerAction::Stop),
                StreamEvent::End => {
                    let actual = hasher_finalize(hasher);
                    (Producer::Closed, verdict(&wanted, actual))
                },
            },
        }
    }
}

/// A message on the channel, as each consumer takes it.
pub enum Message {
    /// A chunk of the blob.
    Chunk(Seq<u8>),
    /// The end of the stream by an error: the upstream's stream failed, or
    /// the blob does not have the digest that was asked for.
    Failed(StorageError),
}

/// The messages that the producer publishes when it answers the event `e` with
/// the action `a`: one or none.
pub open spec fn message_of(e: StreamEventView, a: ProducerActionView) -> Seq<Message> {
    match a {
        ProducerActionView::PublishChunk => match e {
            StreamEventView::Chunk(c) => seq![Message::Chunk(c)],
            _ => Seq::empty(),
        },
        _ => match error_of(a) {
            Some(e) => seq![Message::Failed(e)],
            None => Seq::empty(),
        },
    }
}

/// All that a producer in state `p` publishes over a run of events, in order.
pub open spec fn published(p: ProducerView, events: Seq<StreamEventView>) -> Seq<Message>
    decreases events.len(),
{
    if events.len() == 0 {
        Seq::empty()
    } else {
        let (next, action) = producer_step(p, events[0]);
        message_of(events[0], action) + published(next, events.drop_first())
    }
}

/// The events of a stream that hands out `chunks` and ends cleanly, with the
/// consumers listening throughout.
pub open spec fn complete_stream(chunks: Seq<Seq<u8>>) -> Seq<StreamEventView> {
    Seq::new(
        chunks.len() + 1,
        |i: int|
            if i < chunks.len() {
                StreamEventView::Chunk(chunks[i])
            } else {
                StreamEventView::End
            },
    )
}

/// One message for each chunk, in order.
pub open spec fn chunk_messages(chunks: Seq<Seq<u8>>) -> Seq<Message> {
    Seq::new(chunks.len(), |i: int| Message::Chunk(chunks[i]))
}

/// What a consumer has after it took `messages` from the channel: the bytes
/// before the first error, and whether there was an error.
pub open spec fn received(messages: Seq<Message>) -> (Seq<u8>, bool)
    decreases messages.len(),
{
    if messages.len() == 0 {
        (Seq::empty(), false)
    } else {
        match messages[0] {
            Message::Chunk(c) => {
                let (rest, failed) = received(messages.drop_first());
                (c + rest, failed)
            },
            Message::Failed(_) => (Seq::empty(), true),
        }
    }
}

proof fn lemma_published(seen: Seq<u8>, wanted: Seq<u8>, chunks: Seq<Seq<u8>>)
    ensures
        published(ProducerView::Reading { seen, wanted }, complete_stream(chunks))
            == chunk_messages(chunks) + if sha256(seen + chunks.flatten()) == wanted {
            Seq::<Message>::empty()
        } else {
            seq![Message::Failed(StorageError::UpstreamDataCorrupt)]
        },
    decreases chunks.len(),
{
    let events = complete_stream(chunks);
    let start = ProducerView::Reading { seen, wanted };
    if chunks.len() == 0 {
        assert(events.drop_first() =~= Seq::<StreamEventView>::empty());
        assert(seen + chunks.flatten() =~= seen);
        assert(published(ProducerView::Closed, events.drop_first()) =~= Seq::<Message>::empty());
        assert(chunk_messages(chunks) =~= Seq::<Message>::empty());
    } else {
        let rest = chunks.drop_first();
        assert(events.drop_first() =~= complete_stream(rest));
        lemma_published(seen + chunks[0], wanted, rest);
        assert((seen + chunks[0]) + rest.flatten() =~= seen + chunks.flatten());
        assert(chunk_messages(chunks) =~= seq![Message::Chunk(chunks[0])] + chunk_messages(rest));
        assert(producer_step(start, events[0]).0 == ProducerView::Reading {
            seen: seen + chunks[0],
            wanted,
        });
    }
}

proof fn lemma_received(chunks: Seq<Seq<u8>>, corrupt: bool)
    ensures
        received(
            chunk_messages(chunks) + if corrupt {
                seq![Message::Failed(StorageError::UpstreamDataCorrupt)]
            } else {
                Seq::<Message>::empty()
            },
        ) == (chunks.flatten(), corrupt),
    decreases chunks.len(),
{
    let tail = if corrupt {
        seq![Message::Failed(StorageError::UpstreamDataCorrupt)]
    } else {
        Seq::<Message>::empty()
    };
    let messages = chunk_messages(chunks) + tail;
    if chunks.len() == 0 {
        assert(messages =~= tail);
        if corrupt {
            assert(messages[0] == Message::Failed(StorageError::UpstreamDataCorrupt));
        }
    } else {
        let rest = chunks.drop_first();
        lemma_received(rest, corrupt);
        assert(messages.drop_first() =~= chunk_messages(rest) + tail);
        assert(messages[0] == Message::Chunk(chunks[0]));
    }
}

/// A blob that has the digest asked for reaches each consumer whole: the
/// producer publishes the upstream's chunks as they came and nothing else, and
/// what a consumer then holds is the upstream's bytes, without an error. Both
/// consumers take the same messages, so the bytes that are cached are the bytes
/// that the client got.
pub proof fn lemma_intact_blob(wanted: Seq<u8>, chunks: Seq<Seq<u8>>)
    requires
        sha256(chunks.flatten()) == wanted,
    ensures
        published(
            ProducerView::Reading { seen: Seq::empty(), wanted },
            complete_stream(chunks),
        ) == chunk_messages(chunks),
        received(chunk_messages(chunks)) == (chunks.flatten(), false),
{
    lemma_published(Seq::empty(), wanted, chunks);
    lemma_received(chunks, false);
    assert(Seq::<u8>::empty() + chunks.flatten() =~= chunks.flatten());
    assert(chunk_messages(chunks) + Seq::<Message>::empty() =~= chunk_messages(chunks));
}

/// A blob that does not have the digest asked for ends in an error: the
/// producer publishes every chunk as it came, since what is out cannot be
/// called back, and then the corruption as the last message. A consumer holds
/// the upstream's bytes and an error.
pub proof fn lemma_corrupt_blob(wanted: Seq<u8>, chunks: Seq<Seq<u8>>)
    requires
        sha256(chunks.flatten()) != wanted,
    ensures
        published(
            ProducerView::Reading { seen: Seq::empty(), wanted },
            complete_stream(chunks),
        ) == chunk_messages(chunks).push(Message::Failed(StorageError::UpstreamDataCorrupt)),
        received(
            chunk_messages(chunks).push(Message::Failed(StorageError::UpstreamDataCorrupt)),
        ) == (chunks.flatten(), true),
{
    lemma_published(Seq::empty(), wanted, chunks);
    lemma_received(chunks, true);
    assert(Seq::<u8>::empty() + chunks.flatten() =~= chunks.flatten());
    let last = Message::Failed(StorageError::UpstreamDataCorrupt);
    assert(chunk_messages(chunks) + seq![last] =~= chunk_messages(chunks).push(last));
}

/// What the cache's consumer does when its write has ended.
#[derive(Clone, Copy, Debug, PartialEq, Eq, Structural)]
pub enum PersistAction {
    /// The object is complete: leave it.
    Keep,
    /// The write failed, so the object is partial or corrupt: delete it. If
    /// the delete fails too, nothing more is done.
    Delete,
}

/// What the cache's consumer does after a write: it deletes the object
/// exactly when the write failed.
pub open spec fn persist_action(written: bool) -> PersistAction {
    if written {
        PersistAction::Keep
    } else {
        PersistAction::Delete
    }
}

/// What the cache's consumer does after a write, whatever the client's
/// consumer did meanwhile: see [`persist_action`].
pub fn after_write(written: bool) -> (r: PersistAction)
    ensures
        r == persist_action(written),
{
    if written {
        PersistAction::Keep
    } else {
        PersistAction::Delete
    }
}

/// A blob that does not have the digest asked for is not kept in the cache.
/// The store reports a write as done only if the stream that it wrote ended
/// without an error; the stream of a corrupt blob ends in one, so the write is
/// reported as failed, and the object is deleted.
pub proof fn lemma_corrupt_blob_is_deleted(wanted: Seq<u8>, chunks: Seq<Seq<u8>>, written: bool)
    requires
        sha256(chunks.flatten()) != wanted,
        written ==> !received(
            published(
                ProducerView::Reading { seen: Seq::empty(), wanted },
                complete_stream(chunks),
            ),
        ).1,
    ensures
        persist_action(written) == PersistAction::Delete,
{
    lemma_corrupt_blob(wanted, chunks);
}

/// The chunks among the events of a stream, in order.
pub open spec fn event_chunks(events: Seq<StreamEventView>) -> Seq<Seq<u8>>
    decreases events.len(),
{
    if events.len() == 0 {
        Seq::empty()
    } else {
        let rest = event_chunks(events.drop_first());
        match events[0] {
            StreamEventView::Chunk(c) => seq![c] + rest,
            _ => rest,
        }
    }
}

/// The chunks among the messages of a channel, in order.
pub open spec fn message_chunks(messages: Seq<Message>) -> Seq<Seq<u8>>
    decreases messages.len(),
{
    if messages.len() == 0 {
        Seq::empty()
    } else {
        let rest = message_chunks(messages.drop_first());
        match messages[0] {
            Message::Chunk(c) => seq![c] + rest,
            Message::Failed(_) => rest,
        }
    }
}

/// A producer that has stopped publishes nothing more.
pub proof fn lemma_closed_is_silent(events: Seq<StreamEventView>)
    ensures
        published(ProducerView::Closed, events) == Seq::<Message>::empty(),
    decreases events.len(),
{
    if events.len() > 0 {
        lemma_closed_is_silent(events.drop_first());
    }
}

/// Whatever the stream and the channel do, the consumers get the chunks in the
/// order in which the producer read them, none left out and none twice: the
/// chunks that are published are the first chunks of the stream.
pub proof fn lemma_published_in_order(p: ProducerView, events: Seq<StreamEventView>)
    ensures
        message_chunks(published(p, events)).is_prefix_of(event_chunks(events)),
    decreases events.len(),
{
    if events.len() > 0 {
        let (next, action) = producer_step(p, events[0]);
        let rest = events.drop_first();
        let first = message_of(events[0], action);
        let messages = published(p, events);
        lemma_published_in_order(next, rest);
        if p is Reading && events[0] is Chunk {
            assert(messages.drop_first() =~= published(next, rest));
        } else {
            lemma_closed_is_silent(rest);
            if p is Closed {
                assert(messages =~= Seq::<Message>::empty());
            } else {
                assert(messages =~= first);
                if first.len() > 0 {
                    assert(messages.drop_first() =~= Seq::<Message>::empty());
                }
            }
        }
    }
}

} // verus!
