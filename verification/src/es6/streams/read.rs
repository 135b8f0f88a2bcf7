//! Messages of a read or a subscription.
use vstd::prelude::*;

use crate::es6::streams::{LogPosition, Uuid};
use crate::metadata::Metadata;

verus! {

/// The request.
#[derive(Clone, Debug, PartialEq, Eq)]
pub struct ReadReq {
    pub options: Option<Options>,
}

#[derive(Clone, Debug, PartialEq, Eq)]
pub struct Options {
    pub stream_option: Option<StreamOption>,
    pub resolve_links: bool,
    pub filter_option: Option<FilterOption>,
    pub count_option: Option<CountOption>,
    pub uuid_option: Option<UuidOption>,
    /// 0 for forward, 1 for backward.
    pub read_direction: i32,
}

/// What is read: one stream, or the transaction log.
#[derive(Clone, Debug, PartialEq, Eq)]
pub enum StreamOption {
    Stream(StreamOptions),
    All(AllOptions),
}

#[derive(Clone, Debug, PartialEq, Eq)]
pub struct StreamOptions {
    pub stream_name: String,
    pub revision_option: Option<RevisionOption>,
}

/// Where the read of a stream sets in.
#[derive(Clone, Copy, Debug, PartialEq, Eq)]
pub enum RevisionOption {
    Revision(u64),
    Start,
    End,
}

#[derive(Clone, Copy, Debug, PartialEq, Eq)]
pub struct AllOptions {
    pub all_option: Option<AllOption>,
}

/// Where the read of the transaction log sets in.
#[derive(Clone, Copy, Debug, PartialEq, Eq)]
pub enum AllOption {
    Position(LogPosition),
    Start,
    End,
}

/// Which events are left out.
#[derive(Clone, Copy, Debug, PartialEq, Eq)]
pub enum FilterOption {
    NoFilter,
}

/// How many events are read; a subscription goes on until it is dropped.
#[derive(Clone, Copy, Debug, PartialEq, Eq)]
pub enum CountOption {
    Count(u64),
    Subscription,
}

/// The form in which the server writes identifiers.
#[derive(Clone, Copy, Debug, PartialEq, Eq)]
pub struct UuidOption {
    pub content: Option<UuidContent>,
}

#[derive(Clone, Copy, Debug, PartialEq, Eq)]
pub enum UuidContent {
    Structured,
    String,
}

/// One message of the reply.
#[derive(Debug)]
pub struct ReadResp {
    pub event: Option<ReadEvent>,
}

/// An event, the link that led to it, and where it was committed.
#[derive(Debug)]
pub struct ReadEvent {
    pub event: Option<RecordedEvent>,
    pub link: Option<RecordedEvent>,
    pub position: Option<CommitPosition>,
}

#[derive(Clone, Copy, Debug, PartialEq, Eq)]
pub enum CommitPosition {
    CommitPosition(u64),
    NoPosition,
}

/// An event as the server keeps it.
#[derive(Debug)]
pub struct RecordedEvent {
    pub id: Option<Uuid>,
    pub stream_name: String,
    pub stream_revision: u64,
    pub prepare_position: u64,
    pub commit_position: u64,
    pub metadata: Metadata,
    pub custom_metadata: Vec<u8>,
    pub data: Vec<u8>,
}

} // verus!
