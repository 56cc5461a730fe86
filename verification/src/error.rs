//! Why a request fails.

use vstd::prelude::*;

verus! {

/// The failure of a request handler.
#[derive(Clone, Copy, Debug, PartialEq, Eq, Structural)]
pub enum Error {
    /// The digest asked for is not `sha256:` and 64 lowercase hex digits.
    InvalidDigest,
    /// The upstream answered a blob request without declaring a length.
    MissingContentLength,
    /// No upstream is configured for the namespace.
    UnknownNamespace,
    /// A cached manifest was found but could not be read back.
    UnreadableCacheEntry,
    /// The upstream refused the authentication or the fetch.
    Upstream,
    /// A handler was told of something that it did not wait for.
    OutOfOrder,
}

} // verus!
