//! Mirrors the posts of a set of creators into one directory per post.
//!
//! The library holds the rules of the mirror: how a feed is walked page by
//! page, how a post becomes a directory with its files, which steps a post
//! goes through from listing to commit, and how many posts may be in flight
//! at once. Network, disk and terminal stay with the caller, which performs
//! the actions these functions hand out and reports back what happened.

pub mod commit;
pub mod config;
pub mod errors;
pub mod feeds;
pub mod outside;
pub mod paginator;
pub mod pool;
pub mod post;
pub mod report;
pub mod session;
pub mod task;
pub mod text;
pub mod urls;
