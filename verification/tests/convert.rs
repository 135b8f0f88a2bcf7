use std::collections::BTreeMap;

use eventstore::es6::commands::convert::{
    check_append_resp, check_read_event, check_read_resp, check_recorded_event,
    convert_append_resp, convert_position_option, convert_read_resp, propose_event,
};
use eventstore::es6::commands::{
    convert_event_data, convert_expected_version, convert_proto_read_event,
    convert_proto_recorded_event, convert_settings_create, convert_settings_update,
    raw_uuid_to_uuid,
};
use eventstore::es6::fault::ReplyFault;
use eventstore::es6::streams::append::{
    AppendReq, AppendResp, Content, CurrentRevisionOption, ProposedMessage,
};
use eventstore::es6::streams::{
    read, ExpectedStreamRevision, LogPosition, PositionOption, StructuredUuid, Uuid, UuidValue,
};
use eventstore::es6::types::{
    EventData, ExpectedVersion, PersistentSubscriptionSettings, Position, WriteResult,
};
use eventstore::ids::EventId;
use eventstore::metadata::Metadata;
use eventstore::types::{Duration, Payload, SystemConsumerStrategy};

const ID: EventId = EventId {
    bytes: [
        0x55, 0x0e, 0x84, 0x00, 0xe2, 0x9b, 0x41, 0xd4, 0xa7, 0x16, 0x44, 0x66, 0x55, 0x44, 0x00,
        0x00,
    ],
};
const ID_TEXT: &str = "550e8400-e29b-41d4-a716-446655440000";

fn text_uuid(text: &str) -> Uuid {
    Uuid { value: Some(UuidValue::String(text.to_string())) }
}

fn metadata(entries: &[(&str, &str)]) -> Metadata {
    let mut metadata = Metadata::new();
    for (key, value) in entries {
        metadata.insert(key.to_string(), value.to_string());
    }
    metadata
}

fn recorded(entries: &[(&str, &str)]) -> read::RecordedEvent {
    read::RecordedEvent {
        id: Some(text_uuid(ID_TEXT)),
        stream_name: "orders".to_string(),
        stream_revision: 7,
        prepare_position: 40,
        commit_position: 41,
        metadata: metadata(entries),
        custom_metadata: vec![1, 2],
        data: vec![3, 4, 5],
    }
}

fn json_event() -> EventData {
    EventData {
        event_type: "order-placed".to_string(),
        payload: Payload::Json(b"{}".to_vec()),
        id_opt: Some(ID),
        custom_metadata: Some(Payload::Binary(vec![9, 8])),
    }
}

fn message(req: AppendReq) -> ProposedMessage {
    match req.content {
        Some(Content::ProposedMessage(message)) => message,
        other => panic!("no event is proposed: {:?}", other),
    }
}

#[test]
fn expected_versions_are_written() {
    assert_eq!(convert_expected_version(ExpectedVersion::Any), ExpectedStreamRevision::Any);
    assert_eq!(
        convert_expected_version(ExpectedVersion::StreamExists),
        ExpectedStreamRevision::StreamExists
    );
    assert_eq!(
        convert_expected_version(ExpectedVersion::NoStream),
        ExpectedStreamRevision::NoStream
    );
    assert_eq!(
        convert_expected_version(ExpectedVersion::Exact(12)),
        ExpectedStreamRevision::Revision(12)
    );
}

#[test]
fn text_id_is_read() {
    assert_eq!(raw_uuid_to_uuid(text_uuid(ID_TEXT)), ID);
}

#[test]
fn event_is_proposed_under_its_own_id() {
    let proposed = message(convert_event_data(json_event()));
    assert_eq!(proposed.id, Some(text_uuid(ID_TEXT)));
    assert_eq!(proposed.custom_metadata, vec![9, 8]);
    assert_eq!(proposed.data, b"{}".to_vec());
    let entries: BTreeMap<String, String> = proposed.metadata.into_entries().into_iter().collect();
    assert_eq!(entries.len(), 2);
    assert_eq!(entries["type"], "order-placed");
    assert_eq!(entries["is-json"], "true");
}

#[test]
fn event_without_id_gets_a_random_one() {
    let event = EventData { id_opt: None, custom_metadata: None, ..json_event() };
    let a = message(convert_event_data(event.clone()));
    let b = message(convert_event_data(event));
    assert_ne!(a.id, b.id);
    let id = raw_uuid_to_uuid(a.id.unwrap());
    assert_eq!(id.bytes[6] >> 4, 4);
    assert_eq!(id.bytes[8] >> 6, 2);
    assert!(a.custom_metadata.is_empty());
}

#[test]
fn binary_event_is_not_json() {
    let event = EventData { payload: Payload::Binary(vec![0, 1]), ..json_event() };
    let proposed = message(propose_event(event, EventId { bytes: [0; 16] }));
    assert_eq!(proposed.id, Some(text_uuid("00000000-0000-0000-0000-000000000000")));
    assert_eq!(proposed.metadata.get("is-json"), Some(&"false".to_string()));
    assert_eq!(proposed.data, vec![0, 1]);
}

#[test]
fn recorded_event_is_read() {
    let event = recorded(&[("type", "order-placed"), ("is-json", "true"), ("created", "12")]);
    assert_eq!(check_recorded_event(&event), Ok(()));
    let value = convert_proto_recorded_event(event);
    assert_eq!(value.id, ID);
    assert_eq!(value.stream_id, "orders");
    assert_eq!(value.revision, 7);
    assert_eq!(value.position, Position { commit: 41, prepare: 40 });
    assert_eq!(value.event_type, "order-placed");
    assert!(value.is_json);
    assert_eq!(value.metadata, vec![1, 2]);
    assert_eq!(value.data, vec![3, 4, 5]);
}

#[test]
fn message_says_one_value() {
    let entries = [("type", "t"), ("is-json", "true")];
    let upper = read::RecordedEvent {
        id: Some(text_uuid("{550E8400-E29B-41D4-A716-446655440000}")),
        ..recorded(&entries)
    };
    let a = convert_proto_recorded_event(recorded(&entries));
    assert_eq!(a, convert_proto_recorded_event(recorded(&entries)));
    assert_eq!(a, convert_proto_recorded_event(upper));
}

#[test]
fn recorded_event_without_metadata_has_defaults() {
    let value = convert_proto_recorded_event(recorded(&[]));
    assert_eq!(value.event_type, "<no-event-type-provided>");
    assert!(!value.is_json);
    let value = convert_proto_recorded_event(recorded(&[("is-json", "false")]));
    assert!(!value.is_json);
}

#[test]
fn written_event_reads_back() {
    let event = json_event();
    let proposed = message(convert_event_data(event.clone()));
    let value = convert_proto_recorded_event(read::RecordedEvent {
        id: proposed.id,
        metadata: proposed.metadata,
        custom_metadata: proposed.custom_metadata,
        data: proposed.data,
        ..recorded(&[])
    });
    assert_eq!(Some(value.id), event.id_opt);
    assert_eq!(value.event_type, event.event_type);
    assert!(value.is_json);
    assert_eq!(value.metadata, vec![9, 8]);
    assert_eq!(value.data, b"{}".to_vec());
}

#[test]
fn sent_event_without_id_reads_back() {
    let event = EventData { id_opt: None, ..json_event() };
    let proposed = message(convert_event_data(event.clone()));
    let written = raw_uuid_to_uuid(proposed.id.clone().unwrap());
    let value = convert_proto_recorded_event(read::RecordedEvent {
        id: proposed.id,
        metadata: proposed.metadata,
        custom_metadata: proposed.custom_metadata,
        data: proposed.data,
        ..recorded(&[])
    });
    assert_eq!(value.id, written);
    assert_eq!(value.id.bytes[6] >> 4, 4);
    assert_eq!(value.event_type, event.event_type);
}

#[test]
fn unreadable_recorded_events_are_told_apart() {
    let missing = read::RecordedEvent { id: None, ..recorded(&[]) };
    assert_eq!(check_recorded_event(&missing), Err(ReplyFault::MissingId));
    let empty = read::RecordedEvent { id: Some(Uuid { value: None }), ..recorded(&[]) };
    assert_eq!(check_recorded_event(&empty), Err(ReplyFault::MissingIdValue));
    let halves = StructuredUuid { most_significant_bits: 1, least_significant_bits: -1 };
    let structured = read::RecordedEvent {
        id: Some(Uuid { value: Some(UuidValue::Structured(halves)) }),
        ..recorded(&[])
    };
    assert_eq!(check_recorded_event(&structured), Err(ReplyFault::StructuredId));
    let malformed = read::RecordedEvent { id: Some(text_uuid("550e8400")), ..recorded(&[]) };
    assert_eq!(check_recorded_event(&malformed), Err(ReplyFault::MalformedId));
    let unknown = recorded(&[("is-json", "True")]);
    assert_eq!(check_recorded_event(&unknown), Err(ReplyFault::UnknownJsonFlag));
}

#[test]
fn read_event_holds_event_link_and_position() {
    let value = convert_proto_read_event(read::ReadEvent {
        event: Some(recorded(&[("type", "event")])),
        link: Some(recorded(&[("type", "$>")])),
        position: Some(read::CommitPosition::CommitPosition(99)),
    });
    assert_eq!(value.event.unwrap().event_type, "event");
    assert_eq!(value.link.unwrap().event_type, "$>");
    assert_eq!(value.commit_position, Some(99));
}

#[test]
fn read_event_without_parts_is_empty() {
    for position in [None, Some(read::CommitPosition::NoPosition)] {
        let value =
            convert_proto_read_event(read::ReadEvent { event: None, link: None, position });
        assert_eq!(value.event, None);
        assert_eq!(value.link, None);
        assert_eq!(value.commit_position, None);
    }
}

#[test]
fn unreadable_read_events_are_told_apart() {
    let bad_link = read::ReadEvent {
        event: Some(recorded(&[])),
        link: Some(read::RecordedEvent { id: None, ..recorded(&[]) }),
        position: None,
    };
    assert_eq!(check_read_event(&bad_link), Err(ReplyFault::MissingId));
    let bad_both = read::ReadEvent {
        event: Some(recorded(&[("is-json", "")])),
        link: Some(read::RecordedEvent { id: None, ..recorded(&[]) }),
        position: None,
    };
    assert_eq!(check_read_event(&bad_both), Err(ReplyFault::UnknownJsonFlag));
}

#[test]
fn read_reply_holds_an_event() {
    assert_eq!(
        check_read_resp(&read::ReadResp { event: None }),
        Err(ReplyFault::MissingEvent)
    );
    let resp = read::ReadResp {
        event: Some(read::ReadEvent { event: Some(recorded(&[])), link: None, position: None }),
    };
    assert_eq!(check_read_resp(&resp), Ok(()));
    assert_eq!(convert_read_resp(resp).event.unwrap().id, ID);
}

#[test]
fn write_reply_is_read() {
    let resp = AppendResp {
        current_revision_option: Some(CurrentRevisionOption::CurrentRevision(5)),
        position_option: Some(PositionOption::Position(LogPosition {
            commit_position: 20,
            prepare_position: 19,
        })),
    };
    assert_eq!(check_append_resp(&resp), Ok(()));
    assert_eq!(
        convert_append_resp(resp),
        WriteResult {
            next_expected_version: 5,
            position: Position { commit: 20, prepare: 19 },
        }
    );
}

#[test]
fn write_reply_without_stream_or_position_has_defaults() {
    let resp = AppendResp {
        current_revision_option: Some(CurrentRevisionOption::NoStream),
        position_option: Some(PositionOption::Empty),
    };
    assert_eq!(
        convert_append_resp(resp),
        WriteResult { next_expected_version: 0, position: Position::start() }
    );
    assert_eq!(Position::start(), Position { commit: 0, prepare: 0 });
}

#[test]
fn incomplete_write_replies_are_told_apart() {
    let resp = AppendResp { current_revision_option: None, position_option: None };
    assert_eq!(check_append_resp(&resp), Err(ReplyFault::MissingRevision));
    let resp = AppendResp {
        current_revision_option: Some(CurrentRevisionOption::NoStream),
        position_option: None,
    };
    assert_eq!(check_append_resp(&resp), Err(ReplyFault::MissingPosition));
}

#[test]
fn deletion_position_may_be_missing() {
    assert_eq!(convert_position_option(None), None);
    assert_eq!(convert_position_option(Some(PositionOption::Empty)), None);
    let position = LogPosition { commit_position: 3, prepare_position: 2 };
    assert_eq!(
        convert_position_option(Some(PositionOption::Position(position))),
        Some(Position { commit: 3, prepare: 2 })
    );
}

fn settings() -> PersistentSubscriptionSettings {
    PersistentSubscriptionSettings {
        resolve_links: true,
        revision: 11,
        extra_stats: true,
        message_timeout: Duration { secs: 12, nanos: 345_999_999 },
        max_retry_count: 1,
        checkpoint_after: Duration::from_secs(3),
        min_checkpoint_count: 2,
        max_checkpoint_count: 3,
        max_subscriber_count: 4,
        live_buffer_size: 5,
        read_batch_size: 6,
        history_buffer_size: 7,
        named_consumer_strategy: SystemConsumerStrategy::Pinned,
    }
}

#[test]
fn settings_are_written_for_creation() {
    let written = convert_settings_create(settings());
    assert!(written.resolve_links);
    assert_eq!(written.revision, 11);
    assert!(written.extra_statistics);
    assert_eq!(written.message_timeout, 12_345);
    assert_eq!(written.max_retry_count, 1);
    assert_eq!(written.checkpoint_after, 3_000);
    assert_eq!(written.min_checkpoint_count, 2);
    assert_eq!(written.max_checkpoint_count, 3);
    assert_eq!(written.max_subscriber_count, 4);
    assert_eq!(written.live_buffer_size, 5);
    assert_eq!(written.read_batch_size, 6);
    assert_eq!(written.history_buffer_size, 7);
    assert_eq!(written.named_consumer_strategy, 2);
}

#[test]
fn settings_are_written_alike_for_update() {
    let a = convert_settings_create(settings());
    let b = convert_settings_update(settings());
    assert_eq!(a.resolve_links, b.resolve_links);
    assert_eq!(a.revision, b.revision);
    assert_eq!(a.extra_statistics, b.extra_statistics);
    assert_eq!(a.message_timeout, b.message_timeout);
    assert_eq!(a.max_retry_count, b.max_retry_count);
    assert_eq!(a.checkpoint_after, b.checkpoint_after);
    assert_eq!(a.min_checkpoint_count, b.min_checkpoint_count);
    assert_eq!(a.max_checkpoint_count, b.max_checkpoint_count);
    assert_eq!(a.max_subscriber_count, b.max_subscriber_count);
    assert_eq!(a.live_buffer_size, b.live_buffer_size);
    assert_eq!(a.read_batch_size, b.read_batch_size);
    assert_eq!(a.history_buffer_size, b.history_buffer_size);
    assert_eq!(a.named_consumer_strategy, b.named_consumer_strategy);
}

#[test]
fn strategies_are_numbered() {
    let number = |strategy| {
        let settings =
            PersistentSubscriptionSettings { named_consumer_strategy: strategy, ..settings() };
        convert_settings_update(settings).named_consumer_strategy
    };
    assert_eq!(number(SystemConsumerStrategy::DispatchToSingle), 0);
    assert_eq!(number(SystemConsumerStrategy::RoundRobin), 1);
    assert_eq!(number(SystemConsumerStrategy::Pinned), 2);
}

#[test]
fn overlong_spans_are_cut_to_64_bits() {
    let millis = |secs, nanos| {
        let settings = PersistentSubscriptionSettings {
            message_timeout: Duration { secs, nanos },
            ..settings()
        };
        convert_settings_create(settings).message_timeout
    };
    assert_eq!(millis(9_223_372_036_854_775, 807_000_000), i64::MAX);
    assert_eq!(millis(9_223_372_036_854_775, 808_000_000), i64::MIN);
    assert_eq!(millis(18_446_744_073_709_551, 615_000_000), -1);
    assert_eq!(millis(18_446_744_073_709_551, 616_000_000), 0);
    assert_eq!(millis(u64::MAX, 999_999_999), (u64::MAX as u128 * 1000 + 999) as i64);
    assert_eq!(Duration { secs: 1, nanos: 999_999 }.as_millis(), 1_000);
}
