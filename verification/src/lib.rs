//! A verified content ledger: accounts publish posts and threaded comments,
//! and react to posts with mutually exclusive like/dislike votes.
//!
//! The store keeps a monotonic post counter, a map from post id to post, and
//! a map from (post id, account) to the recorded reaction. Every operation
//! either applies all of its writes or returns an error and changes nothing.

pub mod laws;
pub mod store;
pub mod types;
