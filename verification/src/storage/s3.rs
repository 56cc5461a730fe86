//! An S3 bucket as the object store: its configuration, and the requests that
//! are sent to it.

use vstd::prelude::*;
use vstd::string::*;

use crate::storage::judge_object;
use crate::storage::parse_rfc2822;
use crate::storage::read_outcome;
use crate::storage::rfc2822_instant;
use crate::storage::StorageError;

verus! {

/// Where the bucket is.
pub enum Region {
    /// A service at an address of its own, such as a local one.
    Custom { name: String, endpoint: String },
    /// One of the provider's regions, by its name.
    Named(String),
}

/// A [`Region`] with its texts as sequences of characters.
pub enum RegionView {
    Custom { name: Seq<char>, endpoint: Seq<char> },
    Named(Seq<char>),
}

impl View for Region {
    type V = RegionView;

    open spec fn view(&self) -> RegionView {
        match self {
            Region::Custom { name, endpoint } => RegionView::Custom {
                name: name@,
                endpoint: endpoint@,
            },
            Region::Named(name) => RegionView::Named(name@),
        }
    }
}

/// The settings of the object store.
#[derive(Clone, Debug)]
pub struct Config {
    host: Option<String>,
    access_key: String,
    secret_key: String,
    region: String,
    bucket: String,
}

/// What a [`Config`] holds.
pub struct ConfigView {
    pub host: Option<Seq<char>>,
    pub access_key: Seq<char>,
    pub secret_key: Seq<char>,
    pub region: Seq<char>,
    pub bucket: Seq<char>,
}

impl View for Config {
    type V = ConfigView;

    closed spec fn view(&self) -> ConfigView {
        ConfigView {
            host: match self.host {
                Some(h) => Some(h@),
                None => None,
            },
            access_key: self.access_key@,
            secret_key: self.secret_key@,
            region: self.region@,
            bucket: self.bucket@,
        }
    }
}

/// The region that a configuration names: a service of its own at `host`
/// where there is one, else the provider's region of that name.
pub open spec fn region_of(c: ConfigView) -> RegionView {
    match c.host {
        Some(h) => RegionView::Custom { name: c.region, endpoint: h },
        None => RegionView::Named(c.region),
    }
}

impl Config {
    /// The settings of a bucket, at `host` where one is given.
    pub fn new(
        host: Option<String>,
        access_key: String,
        secret_key: String,
        region: String,
        bucket: String,
    ) -> (r: Self)
        ensures
            r@.host == match host {
                Some(h) => Some(h@),
                None => None,
            },
            r@.access_key == access_key@,
            r@.secret_key == secret_key@,
            r@.region == region@,
            r@.bucket == bucket@,
    {
        Config { host, access_key, secret_key, region, bucket }
    }

    /// The bucket that these settings describe.
    pub fn repository(&self) -> (r: Repository)
        ensures
            r@.region == region_of(self@),
            r@.access_key == self@.access_key,
            r@.secret_key == self@.secret_key,
            r@.bucket == self@.bucket,
    {
        let region = match &self.host {
            Some(s) => Region::Custom { name: self.region.clone(), endpoint: s.clone() },
            None => Region::Named(self.region.clone()),
        };
        Repository {
            region,
            access_key: self.access_key.clone(),
            secret_key: self.secret_key.clone(),
            bucket: self.bucket.clone(),
        }
    }
}

/// A bucket, and how to reach it.
pub struct Repository {
    region: Region,
    access_key: String,
    secret_key: String,
    bucket: String,
}

/// What a [`Repository`] holds.
pub struct RepositoryView {
    pub region: RegionView,
    pub access_key: Seq<char>,
    pub secret_key: Seq<char>,
    pub bucket: Seq<char>,
}

impl View for Repository {
    type V = RepositoryView;

    closed spec fn view(&self) -> RepositoryView {
        RepositoryView {
            region: self.region@,
            access_key: self.access_key@,
            secret_key: self.secret_key@,
            bucket: self.bucket@,
        }
    }
}

/// A request for an object of a bucket.
pub struct GetObject {
    pub bucket: String,
    pub key: String,
}

/// A request to write an object of the declared length to a bucket.
pub struct PutObject {
    pub bucket: String,
    pub key: String,
    pub content_length: Option<i64>,
}

/// A request to remove an object from a bucket.
pub struct DeleteObject {
    pub bucket: String,
    pub key: String,
}

/// What the store says of an object that it returned.
pub struct ObjectHead {
    /// The date of the last modification, as the store wrote it.
    pub last_modified: String,
    /// The length of the object in bytes.
    pub content_length: i64,
}

impl Repository {
    /// Where the bucket is.
    pub fn region(&self) -> (r: &Region)
        ensures
            r@ == self@.region,
    {
        &self.region
    }

    /// The access key of the credentials.
    pub fn access_key(&self) -> (r: &str)
        ensures
            r@ == self@.access_key,
    {
        self.access_key.as_str()
    }

    /// The secret key of the credentials.
    pub fn secret_key(&self) -> (r: &str)
        ensures
            r@ == self@.secret_key,
    {
        self.secret_key.as_str()
    }

    /// The name of the bucket.
    pub fn bucket(&self) -> (r: &str)
        ensures
            r@ == self@.bucket,
    {
        self.bucket.as_str()
    }

    /// The request for the object under the key `object`.
    pub fn get_object(&self, object: &str) -> (r: GetObject)
        ensures
            r.bucket@ == self@.bucket,
            r.key@ == object@,
    {
        GetObject { bucket: self.bucket.clone(), key: String::from_str(object) }
    }

    /// Judges an object that the store returned, at the instant `now`. The
    /// object is refused where the store's date cannot be read, and where it
    /// is older than `invalidation`; else its length is returned, and its
    /// bytes may be served. `now` is in nanoseconds since the Unix epoch,
    /// `invalidation` in nanoseconds.
    pub fn read(&self, head: &ObjectHead, now: i128, invalidation: u128) -> (r: Result<
        u64,
        StorageError,
    >)
        ensures
            r == match rfc2822_instant(head.last_modified@) {
                Some(t) => read_outcome(
                    t,
                    head.content_length as int,
                    now as int,
                    invalidation as int,
                ),
                None => Err(StorageError::InvalidTimestamp),
            },
    {
        match parse_rfc2822(head.last_modified.as_str()) {
            Ok(modified) => judge_object(modified, head.content_length, now, invalidation),
            Err(_) => Err(StorageError::InvalidTimestamp),
        }
    }

    /// The request to remove the object under the key `object`.
    pub fn delete(&self, object: &str) -> (r: DeleteObject)
        ensures
            r.bucket@ == self@.bucket,
            r.key@ == object@,
    {
        DeleteObject { bucket: self.bucket.clone(), key: String::from_str(object) }
    }

    /// The request to write `length` bytes under the key `object`.
    pub fn write(&self, object: &str, length: i64) -> (r: PutObject)
        ensures
            r.bucket@ == self@.bucket,
            r.key@ == object@,
            r.content_length == Some(length),
    {
        PutObject {
            bucket: self.bucket.clone(),
            key: String::from_str(object),
            content_length: Some(length),
        }
    }
}

} // verus!
