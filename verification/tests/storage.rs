use registry_cache::storage::content_length;
use registry_cache::storage::judge_object;
use registry_cache::storage::object_age;
use registry_cache::storage::s3::Config;
use registry_cache::storage::s3::ObjectHead;
use registry_cache::storage::s3::Region;
use registry_cache::storage::StorageError;

const SECOND: i128 = 1_000_000_000;
const OCT_21_2015: i128 = 1_445_412_480 * SECOND;

fn config(host: Option<&str>) -> Config {
    Config::new(
        host.map(|h| h.to_string()),
        "access".to_string(),
        "secret-key".to_string(),
        "us-east-1".to_string(),
        "cache".to_string(),
    )
}

fn head(last_modified: &str, content_length: i64) -> ObjectHead {
    ObjectHead { last_modified: last_modified.to_string(), content_length }
}

#[test]
fn object_age_is_the_difference() {
    assert_eq!(object_age(10, 3), 7);
    assert_eq!(object_age(3, 3), 0);
    assert_eq!(object_age(-3, -10), 7);
    assert_eq!(object_age(5, -5), 10);
}

#[test]
fn object_from_the_future_has_age_zero() {
    assert_eq!(object_age(3, 10), 0);
    assert_eq!(object_age(-10, 5), 0);
    assert_eq!(object_age(i128::MIN, i128::MAX), 0);
}

#[test]
fn object_age_does_not_overflow() {
    assert_eq!(object_age(i128::MAX, i128::MIN), u128::MAX);
    assert_eq!(object_age(i128::MAX, 0), i128::MAX as u128);
    assert_eq!(object_age(0, i128::MIN), 1u128 << 127);
    assert_eq!(object_age(i128::MAX, -1), 1u128 << 127);
}

#[test]
fn content_length_saturates() {
    assert_eq!(content_length(0), 0);
    assert_eq!(content_length(8), 8);
    assert_eq!(content_length(i64::MAX as u64), i64::MAX);
    assert_eq!(content_length(i64::MAX as u64 + 1), i64::MAX);
    assert_eq!(content_length(u64::MAX), i64::MAX);
}

#[test]
fn judge_object_serves_fresh_objects() {
    assert_eq!(judge_object(100, 42, 150, 50), Ok(42));
    assert_eq!(judge_object(100, 42, 100, 0), Ok(42));
    assert_eq!(judge_object(100, 42, 50, 0), Ok(42));
}

#[test]
fn judge_object_refuses_old_objects() {
    assert_eq!(judge_object(100, 42, 151, 50), Err(StorageError::ObjectTooOld { age: 51 }));
    assert_eq!(judge_object(100, 42, 101, 0), Err(StorageError::ObjectTooOld { age: 1 }));
}

#[test]
fn judge_object_reports_negative_length_as_zero() {
    assert_eq!(judge_object(100, -1, 100, 0), Ok(0));
    assert_eq!(judge_object(100, i64::MIN, 100, 0), Ok(0));
    assert_eq!(judge_object(100, i64::MAX, 100, 0), Ok(i64::MAX as u64));
}

#[test]
fn read_parses_the_date_of_the_store() {
    let repo = config(None).repository();
    let object = head("Wed, 21 Oct 2015 07:28:00 +0000", 7);
    assert_eq!(repo.read(&object, OCT_21_2015 + 10 * SECOND, 10 * SECOND as u128), Ok(7));
    assert_eq!(
        repo.read(&object, OCT_21_2015 + 10 * SECOND + 1, 10 * SECOND as u128),
        Err(StorageError::ObjectTooOld { age: 10 * SECOND as u128 + 1 })
    );
}

#[test]
fn read_honours_the_offset_of_the_date() {
    let repo = config(None).repository();
    let object = head("Wed, 21 Oct 2015 09:28:00 +0200", 7);
    assert_eq!(
        repo.read(&object, OCT_21_2015 + 1, 0),
        Err(StorageError::ObjectTooOld { age: 1 })
    );
    assert_eq!(repo.read(&object, OCT_21_2015, 0), Ok(7));
}

#[test]
fn read_accepts_gmt_dates() {
    let repo = config(None).repository();
    let object = head("Wed, 21 Oct 2015 07:28:00 GMT", 7);
    assert_eq!(
        repo.read(&object, OCT_21_2015 + 5, 0),
        Err(StorageError::ObjectTooOld { age: 5 })
    );
}

#[test]
fn read_refuses_unreadable_dates() {
    let repo = config(None).repository();
    assert_eq!(repo.read(&head("yesterday", 7), 0, u128::MAX), Err(StorageError::InvalidTimestamp));
    assert_eq!(repo.read(&head("", 7), 0, u128::MAX), Err(StorageError::InvalidTimestamp));
    assert_eq!(
        repo.read(&head("2015-10-21T07:28:00Z", 7), 0, u128::MAX),
        Err(StorageError::InvalidTimestamp)
    );
}

#[test]
fn repository_of_a_named_region() {
    let repo = config(None).repository();
    match repo.region() {
        Region::Named(name) => assert_eq!(name, "us-east-1"),
        Region::Custom { .. } => panic!("no host was given"),
    }
    assert_eq!(repo.bucket(), "cache");
    assert_eq!(repo.access_key(), "access");
    assert_eq!(repo.secret_key(), "secret-key");
}

#[test]
fn repository_of_a_custom_host() {
    let repo = config(Some("http://localhost:9000")).repository();
    match repo.region() {
        Region::Custom { name, endpoint } => {
            assert_eq!(name, "us-east-1");
            assert_eq!(endpoint, "http://localhost:9000");
        }
        Region::Named(_) => panic!("a host was given"),
    }
}

#[test]
fn requests_name_the_bucket_and_the_key() {
    let repo = config(None).repository();
    let get = repo.get_object("blobs/sha256/aa/bb");
    assert_eq!(get.bucket, "cache");
    assert_eq!(get.key, "blobs/sha256/aa/bb");
    let delete = repo.delete("blobs/sha256/aa/bb");
    assert_eq!(delete.bucket, "cache");
    assert_eq!(delete.key, "blobs/sha256/aa/bb");
    let put = repo.write("manifests/docker.io/library/busybox/latest", 17);
    assert_eq!(put.bucket, "cache");
    assert_eq!(put.key, "manifests/docker.io/library/busybox/latest");
    assert_eq!(put.content_length, Some(17));
}
