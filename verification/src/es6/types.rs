//! Values that the commands of the gRPC protocol take and give.
use vstd::prelude::*;

use crate::ids::EventId;
use crate::types::{Duration, Payload, SystemConsumerStrategy};

verus! {

/// What a stream has to look like for a command on it to be carried out.
#[derive(Clone, Copy, Debug, PartialEq, Eq)]
pub enum ExpectedVersion {
    /// Anything goes.
    Any,
    /// The stream has to be there.
    StreamExists,
    /// The stream must not be there.
    NoStream,
    /// The stream has to be at this revision.
    Exact(u64),
}

/// A place in the transaction log.
#[derive(Clone, Copy, Debug, PartialEq, Eq)]
pub struct Position {
    pub commit: u64,
    pub prepare: u64,
}

impl Position {
    /// The place where the transaction log begins.
    pub open spec fn at_start() -> Position {
        Position { commit: 0, prepare: 0 }
    }

    /// The place where the transaction log begins.
    pub fn start() -> (r: Position)
        ensures
            r == Position::at_start(),
    {
        Position { commit: 0, prepare: 0 }
    }
}

/// Where a read sets in.
#[derive(Clone, Copy, Debug, PartialEq, Eq)]
pub enum Revision<A> {
    Start,
    End,
    Exact(A),
}

/// An event to be written.
#[derive(Clone, Debug, PartialEq, Eq)]
pub struct EventData {
    pub event_type: String,
    pub payload: Payload,
    /// The identifier of the event; a random one is drawn where it is `None`.
    pub id_opt: Option<EventId>,
    pub custom_metadata: Option<Payload>,
}

impl EventData {
    /// The bytes of the custom metadata; none where there is no custom metadata.
    pub open spec fn custom_bytes(self) -> Seq<u8> {
        match self.custom_metadata {
            Some(payload) => payload.bytes(),
            None => Seq::empty(),
        }
    }
}

/// What the server says of a write that it has carried out.
#[derive(Clone, Copy, Debug, PartialEq, Eq)]
pub struct WriteResult {
    /// The revision that the stream is at after the write.
    pub next_expected_version: u64,
    /// The place of the write in the transaction log.
    pub position: Position,
}

/// An event as the server keeps it.
#[derive(Clone, Debug, PartialEq, Eq)]
pub struct RecordedEvent {
    pub id: EventId,
    pub stream_id: String,
    pub revision: u64,
    pub position: Position,
    pub event_type: String,
    pub is_json: bool,
    pub metadata: Vec<u8>,
    pub data: Vec<u8>,
}

/// An event that was read, and the link that led to it.
#[derive(Clone, Debug, PartialEq, Eq)]
pub struct ResolvedEvent {
    pub event: Option<RecordedEvent>,
    pub link: Option<RecordedEvent>,
    pub commit_position: Option<u64>,
}

/// The settings of a persistent subscription.
#[derive(Clone, Copy, Debug, PartialEq, Eq)]
pub struct PersistentSubscriptionSettings {
    pub resolve_links: bool,
    pub revision: u64,
    pub extra_stats: bool,
    pub message_timeout: Duration,
    pub max_retry_count: i32,
    pub checkpoint_after: Duration,
    pub min_checkpoint_count: i32,
    pub max_checkpoint_count: i32,
    pub max_subscriber_count: i32,
    pub live_buffer_size: i32,
    pub read_batch_size: i32,
    pub history_buffer_size: i32,
    pub named_consumer_strategy: SystemConsumerStrategy,
}

impl PersistentSubscriptionSettings {
    /// The settings that hold where nothing else is asked for.
    pub open spec fn standard() -> PersistentSubscriptionSettings {
        PersistentSubscriptionSettings {
            resolve_links: false,
            revision: 0,
            extra_stats: false,
            message_timeout: Duration { secs: 30, nanos: 0 },
            max_retry_count: 500,
            checkpoint_after: Duration { secs: 2, nanos: 0 },
            min_checkpoint_count: 10,
            max_checkpoint_count: 1000,
            max_subscriber_count: 0,
            live_buffer_size: 500,
            read_batch_size: 10,
            history_buffer_size: 20,
            named_consumer_strategy: SystemConsumerStrategy::RoundRobin,
        }
    }
}

impl Default for PersistentSubscriptionSettings {
    fn default() -> (r: PersistentSubscriptionSettings)
        ensures
            r == PersistentSubscriptionSettings::standard(),
    {
        PersistentSubscriptionSettings {
            resolve_links: false,
            revision: 0,
            extra_stats: false,
            message_timeout: Duration::from_secs(30),
            max_retry_count: 500,
            checkpoint_after: Duration::from_secs(2),
            min_checkpoint_count: 10,
            max_checkpoint_count: 1000,
            max_subscriber_count: 0,
            live_buffer_size: 500,
            read_batch_size: 10,
            history_buffer_size: 20,
            named_consumer_strategy: SystemConsumerStrategy::RoundRobin,
        }
    }
}

} // verus!
