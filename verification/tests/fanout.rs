use registry_cache::digest::BlobDigest;
use registry_cache::fanout::after_write;
use registry_cache::fanout::PersistAction;
use registry_cache::fanout::Producer;
use registry_cache::fanout::ProducerAction;
use registry_cache::fanout::StreamEvent;
use registry_cache::fanout::CHANNEL_CAPACITY;
use registry_cache::storage::StorageError;

const HELLO_WORLD: &str = "sha256:b94d27b9934d3e08a52e52d7da7dabfac484efe37a5380ee9088f7ace2efcde9";
const ABC: &str = "sha256:ba7816bf8f01cfea414140de5dae2223b00361a396177a9cb410ff61f20015ad";
const EMPTY: &str = "sha256:e3b0c44298fc1c149afbf4c8996fb92427ae41e4649b934ca495991b7852b855";

/// Runs a producer over chunks and a clean end, the way a driver does: what a
/// consumer gets, and the last action.
fn run(wanted: &str, chunks: &[&[u8]]) -> (Vec<u8>, ProducerAction) {
    let mut producer = Producer::new(BlobDigest::parse(wanted).unwrap());
    let mut received = Vec::new();
    for chunk in chunks {
        let (next, action) = producer.step(StreamEvent::Chunk(chunk));
        assert!(matches!(action, ProducerAction::PublishChunk));
        assert!(!next.is_closed());
        received.extend_from_slice(chunk);
        producer = next;
    }
    let (next, action) = producer.step(StreamEvent::End);
    assert!(next.is_closed());
    (received, action)
}

#[test]
fn channel_holds_sixteen_chunks() {
    assert_eq!(CHANNEL_CAPACITY, 16);
}

#[test]
fn intact_blob_is_published_whole() {
    let (received, last) = run(HELLO_WORLD, &[b"hello", b" ", b"world"]);
    assert_eq!(received, b"hello world");
    assert!(matches!(last, ProducerAction::Finish));
}

#[test]
fn chunking_does_not_change_the_hash() {
    let (_, last) = run(ABC, &[b"abc"]);
    assert!(matches!(last, ProducerAction::Finish));
    let (_, last) = run(ABC, &[b"a", b"b", b"c"]);
    assert!(matches!(last, ProducerAction::Finish));
    let (_, last) = run(ABC, &[b"", b"ab", b"", b"c", b""]);
    assert!(matches!(last, ProducerAction::Finish));
}

#[test]
fn order_of_chunks_matters() {
    let (_, last) = run(ABC, &[b"c", b"b", b"a"]);
    assert!(matches!(last, ProducerAction::PublishCorrupt { .. }));
}

#[test]
fn empty_blob_is_intact() {
    let (received, last) = run(EMPTY, &[]);
    assert!(received.is_empty());
    assert!(matches!(last, ProducerAction::Finish));
}

#[test]
fn corrupt_blob_ends_in_an_error_after_its_bytes() {
    let wanted = "sha256:aaaaaaaaaaaaaaaaaaaaaaaaaaaaaaaaaaaaaaaaaaaaaaaaaaaaaaaaaaaaaaaa";
    let (received, last) = run(wanted, &[b"hello", b" ", b"world"]);
    assert_eq!(received, b"hello world");
    match last {
        ProducerAction::PublishCorrupt { actual } => {
            assert_eq!(actual.text(), HELLO_WORLD);
            assert_eq!(
                actual.hex(),
                "b94d27b9934d3e08a52e52d7da7dabfac484efe37a5380ee9088f7ace2efcde9"
            );
        }
        other => panic!("unexpected action {:?}", other),
    }
    assert_eq!(after_write(false), PersistAction::Delete);
}

#[test]
fn truncated_blob_is_corrupt() {
    let (_, last) = run(HELLO_WORLD, &[b"hello"]);
    assert!(matches!(last, ProducerAction::PublishCorrupt { .. }));
}

#[test]
fn read_error_is_published_and_stops_the_producer() {
    let producer = Producer::new(BlobDigest::parse(HELLO_WORLD).unwrap());
    let (producer, action) = producer.step(StreamEvent::Chunk(b"hello"));
    assert!(matches!(action, ProducerAction::PublishChunk));
    let (producer, action) = producer.step(StreamEvent::ReadError);
    assert!(matches!(action, ProducerAction::PublishReadError));
    assert!(producer.is_closed());
    let (producer, action) = producer.step(StreamEvent::End);
    assert!(matches!(action, ProducerAction::Stop));
    assert!(producer.is_closed());
}

#[test]
fn producer_stops_when_every_consumer_is_gone() {
    let producer = Producer::new(BlobDigest::parse(HELLO_WORLD).unwrap());
    let (producer, _) = producer.step(StreamEvent::Chunk(b"hello"));
    let (producer, action) = producer.step(StreamEvent::Undelivered);
    assert!(matches!(action, ProducerAction::Stop));
    assert!(producer.is_closed());
    let (_, action) = producer.step(StreamEvent::Chunk(b" world"));
    assert!(matches!(action, ProducerAction::Stop));
}

#[test]
fn persistence_keeps_a_complete_object() {
    assert_eq!(after_write(true), PersistAction::Keep);
    assert_eq!(after_write(false), PersistAction::Delete);
}

#[test]
fn actions_name_the_error_that_they_publish() {
    let producer = Producer::new(BlobDigest::parse(HELLO_WORLD).unwrap());
    let (producer, action) = producer.step(StreamEvent::Chunk(b"hello"));
    assert_eq!(action.error(), None);
    let (_, action) = producer.step(StreamEvent::ReadError);
    assert_eq!(action.error(), Some(StorageError::Upstream));

    let (_, last) = run(HELLO_WORLD, &[b"hello"]);
    assert_eq!(last.error(), Some(StorageError::UpstreamDataCorrupt));
    let (_, last) = run(HELLO_WORLD, &[b"hello world"]);
    assert_eq!(last.error(), None);
}

#[test]
fn verdict_compares_the_hashes() {
    let wanted = BlobDigest::parse(EMPTY).unwrap();
    let same = *wanted.as_bytes();
    assert!(matches!(registry_cache::fanout::verdict(&wanted, same), ProducerAction::Finish));
    let mut other = same;
    other[5] ^= 0x10;
    match registry_cache::fanout::verdict(&wanted, other) {
        ProducerAction::PublishCorrupt { actual } => assert_eq!(actual.as_bytes(), &other),
        action => panic!("unexpected action {:?}", action),
    }
}
