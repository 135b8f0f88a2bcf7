//! The message that creates a persistent subscription.
use vstd::prelude::*;

verus! {

#[derive(Clone, Debug, PartialEq, Eq)]
pub struct CreateReq {
    pub options: Option<Options>,
}

#[derive(Clone, Debug, PartialEq, Eq)]
pub struct Options {
    pub stream_name: String,
    pub group_name: String,
    pub settings: Option<Settings>,
}

/// The settings of the subscription, as the protocol writes them.
#[derive(Clone, Copy, Debug, PartialEq, Eq)]
pub struct Settings {
    pub resolve_links: bool,
    pub revision: u64,
    pub extra_statistics: bool,
    /// In milliseconds.
    pub message_timeout: i64,
    pub max_retry_count: i32,
    /// In milliseconds.
    pub checkpoint_after: i64,
    pub min_checkpoint_count: i32,
    pub max_checkpoint_count: i32,
    pub max_subscriber_count: i32,
    pub live_buffer_size: i32,
    pub read_batch_size: i32,
    pub history_buffer_size: i32,
    /// 0 for dispatch to a single consumer, 1 for round robin, 2 for pinned.
    pub named_consumer_strategy: i32,
}

} // verus!
