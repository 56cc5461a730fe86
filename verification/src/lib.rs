//! Decision logic of a pull-through cache for container-image registries.
//!
//! The crate holds the parts of the gateway that compute: how a request is
//! resolved to a namespace and an image, under which key an object is cached,
//! when a cached object counts as fresh, and what the request handlers do next
//! after each answer of the cache or of the upstream registry. Input and output
//! are left to the caller, which performs the actions that the handlers name.

pub mod api;
pub mod blob;
pub mod digest;
pub mod error;
pub mod fanout;
pub mod manifest;
pub mod storage;
pub mod text;
