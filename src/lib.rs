//! Watches a blog for a new post and plans the announcement of it in a chat
//! channel: the post's fingerprint is read from the front page, compared with
//! the one seen before, and a change rewrites a field of the channel topic.
pub mod fingerprint;
pub mod poller;
pub mod topic;
