//! On-demand cache of per-user syndication feeds built from scholarly search
//! results.
//!
//! The crate holds the decisions of a small feed server: how a request's query
//! string selects a user, how a feed document is assembled from search
//! records, how the cache coalesces generations for one user, when the cache
//! is swept, and what response a request is owed. Transport and the search
//! client stay with the caller, which hands plain values in and takes plain
//! values back.

pub mod document;
pub mod search;
pub mod assembler;
pub mod render;
pub mod cache;
pub mod sweeper;
pub mod request;
