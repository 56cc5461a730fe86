//! The object store behind the cache: how it is addressed, what is asked of it,
//! and when an object that it holds is too old to serve.

use time::format_description::well_known::Rfc2822;
use time::OffsetDateTime;
use vstd::prelude::*;
use vstd::string::*;

pub mod s3;

verus! {

/// Why an object could not be read from, or written to, the store.
#[derive(Clone, Copy, Debug, PartialEq, Eq, Structural)]
pub enum StorageError {
    /// The store failed, or holds no such object.
    Backend,
    /// The store's date of last modification is not an RFC 2822 date.
    InvalidTimestamp,
    /// The object is older than the namespace allows. `age` is in
    /// nanoseconds.
    ObjectTooOld { age: u128 },
    /// The upstream's stream failed while it was copied.
    Upstream,
    /// The bytes from the upstream do not have the digest asked for.
    UpstreamDataCorrupt,
}

/// The age in nanoseconds, at the instant `now`, of an object last modified
/// at the instant `modified`. An object from the future has the age 0.
pub open spec fn age_at(now: int, modified: int) -> int {
    if now > modified {
        now - modified
    } else {
        0
    }
}

/// The length of an object as the store reports it, 0 where the report is
/// negative.
pub open spec fn reported_length(content_length: int) -> int {
    if content_length >= 0 {
        content_length
    } else {
        0
    }
}

/// The length to declare to the store for `len` bytes: `len`, or the largest
/// length that the store's field can hold.
pub open spec fn declared_length(len: int) -> int {
    if len <= i64::MAX {
        len
    } else {
        i64::MAX as int
    }
}

/// The answer to a read of an object last modified at `modified`, at the
/// instant `now`: its length, unless it is older than `invalidation`.
pub open spec fn read_outcome(modified: int, content_length: int, now: int, invalidation: int)
    -> Result<u64, StorageError> {
    if age_at(now, modified) > invalidation {
        Err(StorageError::ObjectTooOld { age: age_at(now, modified) as u128 })
    } else {
        Ok(reported_length(content_length) as u64)
    }
}

/// The instant that an RFC 2822 date names, in nanoseconds since the Unix
/// epoch; `None` for a text that is no such date.
pub uninterp spec fn rfc2822_instant(text: Seq<char>) -> Option<int>;

/// The error of `OffsetDateTime::parse`, of which nothing is read here.
#[verifier::external_type_specification]
#[verifier::external_body]
pub struct ExParse(time::error::Parse);

/// `OffsetDateTime::parse` with the format `Rfc2822`, followed by
/// `OffsetDateTime::unix_timestamp_nanos`: the instant that the text names,
/// where it is such a date.
#[verifier::external_body]
pub(crate) fn parse_rfc2822(text: &str) -> (r: Result<i128, time::error::Parse>)
    ensures
        match r {
            Ok(t) => rfc2822_instant(text@) == Some(t as int),
            Err(_) => rfc2822_instant(text@) is None,
        },
{
    OffsetDateTime::parse(text, &Rfc2822).map(OffsetDateTime::unix_timestamp_nanos)
}

/// The age of an object: see [`age_at`].
pub fn object_age(now: i128, modified: i128) -> (age: u128)
    ensures
        age == age_at(now as int, modified as int),
{
    if now <= modified {
        0
    } else if modified >= 0 || now < 0 {
        (now - modified) as u128
    } else {
        let below: u128 = (-(modified + 1)) as u128 + 1;
        now as u128 + below
    }
}

/// The length to declare to the store for `len` bytes: see
/// [`declared_length`].
pub fn content_length(len: u64) -> (r: i64)
    ensures
        r == declared_length(len as int),
{
    if len <= i64::MAX as u64 {
        len as i64
    } else {
        i64::MAX
    }
}

/// Judges an object that the store returned: see [`read_outcome`].
/// `modified` and `now` are instants in nanoseconds since the Unix epoch,
/// `invalidation` is the greatest age in nanoseconds that is still served.
pub fn judge_object(modified: i128, content_length: i64, now: i128, invalidation: u128) -> (r:
    Result<u64, StorageError>)
    ensures
        r == read_outcome(modified as int, content_length as int, now as int, invalidation as int),
{
    let age = object_age(now, modified);
    if age > invalidation {
        return Err(StorageError::ObjectTooOld { age });
    }
    if content_length >= 0 {
        Ok(content_length as u64)
    } else {
        Ok(0)
    }
}

} // verus!
