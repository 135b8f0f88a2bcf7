use eventstore::es6::commands::catchup::{
    ErrorStatus, SubscriptionSignal, SubscriptionStep,
};
use eventstore::es6::commands::delete::{
    convert_delete_resp, convert_tombstone_resp, DeleteMessage,
};
use eventstore::es6::commands::{
    AllCatchupSubscribe, ConnectToPersistentSubscription, CreatePersistentSubscription,
    DeletePersistentSubscription, DeleteStream, ReadAllEvents, ReadStreamEvents,
    RegularCatchupSubscribe, UpdatePersistentSubscription, WriteEvents,
};
use eventstore::es6::persistent;
use eventstore::es6::streams::append::Content;
use eventstore::es6::streams::delete::{DeleteResp, TombstoneResp};
use eventstore::es6::streams::read::{
    AllOption, CommitPosition, CountOption, FilterOption, Options, ReadEvent, ReadReq, ReadResp,
    RevisionOption, StreamOption, UuidContent, UuidOption,
};
use eventstore::es6::streams::{ExpectedStreamRevision, LogPosition, PositionOption};
use eventstore::es6::types::{ExpectedVersion, PersistentSubscriptionSettings, Position};
use eventstore::types::{Credentials, Duration, LinkTos, SystemConsumerStrategy};

fn creds() -> Credentials {
    Credentials { login: "admin".to_string(), password: "changeit".to_string() }
}

fn options(req: ReadReq) -> Options {
    req.options.unwrap()
}

fn stream_part(options: &Options) -> (String, RevisionOption) {
    match &options.stream_option {
        Some(StreamOption::Stream(stream)) => {
            (stream.stream_name.clone(), stream.revision_option.unwrap())
        }
        other => panic!("not a stream: {:?}", other),
    }
}

fn log_part(options: &Options) -> AllOption {
    match &options.stream_option {
        Some(StreamOption::All(all)) => all.all_option.unwrap(),
        other => panic!("not the log: {:?}", other),
    }
}

fn assert_readable(options: &Options) {
    assert_eq!(options.filter_option, Some(FilterOption::NoFilter));
    assert_eq!(options.uuid_option, Some(UuidOption { content: Some(UuidContent::String) }));
}

#[test]
fn write_opens_with_its_stream_and_version() {
    let call = WriteEvents::new("s".to_string()).request();
    assert!(!call.require_master);
    assert_eq!(call.credentials, None);
    match call.message.content {
        Some(Content::Options(options)) => {
            assert_eq!(options.stream_name, "s");
            assert_eq!(options.expected_stream_revision, Some(ExpectedStreamRevision::Any));
        }
        other => panic!("not a header: {:?}", other),
    }
    let call = WriteEvents::new("s".to_string())
        .require_master(true)
        .expected_version(ExpectedVersion::Exact(4))
        .credentials(creds())
        .request();
    assert!(call.require_master);
    assert_eq!(call.credentials, Some(creds()));
    match call.message.content {
        Some(Content::Options(options)) => assert_eq!(
            options.expected_stream_revision,
            Some(ExpectedStreamRevision::Revision(4))
        ),
        other => panic!("not a header: {:?}", other),
    }
}

#[test]
fn stream_read_starts_forward_from_the_beginning() {
    let command = ReadStreamEvents::new("s".to_string());
    assert_eq!(command.max_count, 500);
    let call = command.request(30);
    assert!(!call.require_master);
    assert_eq!(call.credentials, None);
    let options = options(call.message);
    assert_eq!(stream_part(&options), ("s".to_string(), RevisionOption::Start));
    assert!(!options.resolve_links);
    assert_eq!(options.count_option, Some(CountOption::Count(30)));
    assert_eq!(options.read_direction, 0);
    assert_readable(&options);
}

#[test]
fn stream_read_goes_where_it_is_told() {
    let read = || ReadStreamEvents::new("s".to_string());
    let place = |command: ReadStreamEvents| {
        let options = options(command.request(1).message);
        (stream_part(&options).1, options.read_direction)
    };
    assert_eq!(place(read().backward()), (RevisionOption::Start, 1));
    assert_eq!(place(read().backward().forward()), (RevisionOption::Start, 0));
    assert_eq!(place(read().start_from(8)), (RevisionOption::Revision(8), 0));
    assert_eq!(place(read().backward().start_from(8)), (RevisionOption::Revision(8), 1));
    assert_eq!(place(read().start_from_end_of_stream()), (RevisionOption::End, 1));
    assert_eq!(
        place(read().start_from_end_of_stream().start_from_beginning()),
        (RevisionOption::Start, 0)
    );
}

#[test]
fn stream_read_keeps_its_terms() {
    let read = ReadStreamEvents::new("s".to_string())
        .max_count(3)
        .require_master(true)
        .resolve_link_tos(LinkTos::ResolveLink)
        .credentials(creds());
    assert_eq!(read.max_count, 3);
    let call = read.clone().request(1);
    assert!(call.require_master);
    assert_eq!(call.credentials, Some(creds()));
    assert!(options(call.message).resolve_links);
    let call = read.set_credentials(None).resolve_link_tos(LinkTos::NoResolution).request(1);
    assert_eq!(call.credentials, None);
    assert!(!options(call.message).resolve_links);
}

#[test]
fn log_read_starts_forward_from_the_beginning() {
    let command = ReadAllEvents::new();
    assert_eq!(command.max_count, 500);
    let options = options(command.request(u64::MAX).message);
    assert_eq!(log_part(&options), AllOption::Start);
    assert!(!options.resolve_links);
    assert_eq!(options.count_option, Some(CountOption::Count(u64::MAX)));
    assert_eq!(options.read_direction, 0);
    assert_readable(&options);
}

#[test]
fn log_read_goes_where_it_is_told() {
    let place = |command: ReadAllEvents| {
        let options = options(command.request(1).message);
        (log_part(&options), options.read_direction)
    };
    let at = Position { commit: 6, prepare: 5 };
    let written = AllOption::Position(LogPosition { commit_position: 6, prepare_position: 5 });
    assert_eq!(place(ReadAllEvents::new().start_from(at)), (written, 0));
    assert_eq!(place(ReadAllEvents::new().start_from(at).backward()), (written, 1));
    assert_eq!(place(ReadAllEvents::new().backward().forward()), (AllOption::Start, 0));
    assert_eq!(place(ReadAllEvents::new().start_from_end_of_stream()), (AllOption::End, 1));
    assert_eq!(
        place(ReadAllEvents::new().start_from_end_of_stream().start_from_beginning()),
        (AllOption::Start, 0)
    );
}

#[test]
fn log_read_keeps_its_terms() {
    let read = ReadAllEvents::new()
        .max_count(9)
        .require_master(true)
        .resolve_link_tos(LinkTos::ResolveLink)
        .credentials(creds());
    assert_eq!(read.max_count, 9);
    let call = read.request(2);
    assert!(call.require_master);
    assert_eq!(call.credentials, Some(creds()));
    assert!(options(call.message).resolve_links);
}

#[test]
fn deletion_is_soft_by_default() {
    let call = DeleteStream::new("s".to_string()).request();
    assert!(!call.require_master);
    assert_eq!(call.credentials, None);
    match call.message {
        DeleteMessage::Soft(req) => {
            let options = req.options.unwrap();
            assert_eq!(options.stream_name, "s");
            assert_eq!(options.expected_stream_revision, Some(ExpectedStreamRevision::Any));
        }
        other => panic!("not soft: {:?}", other),
    }
    assert_eq!(
        DeleteStream::new("s".to_string()).hard_delete().soft_delete(),
        DeleteStream::new("s".to_string())
    );
}

#[test]
fn hard_deletion_writes_a_tombstone() {
    let call = DeleteStream::new("s".to_string())
        .hard_delete()
        .require_master(true)
        .expected_version(ExpectedVersion::StreamExists)
        .credentials(creds())
        .request();
    assert!(call.require_master);
    assert_eq!(call.credentials, Some(creds()));
    match call.message {
        DeleteMessage::Hard(req) => {
            let options = req.options.unwrap();
            assert_eq!(options.stream_name, "s");
            assert_eq!(
                options.expected_stream_revision,
                Some(ExpectedStreamRevision::StreamExists)
            );
        }
        other => panic!("not hard: {:?}", other),
    }
}

#[test]
fn both_deletions_ask_the_same() {
    let command =
        DeleteStream::new("s".to_string()).expected_version(ExpectedVersion::Exact(2));
    let soft = match command.clone().soft_delete().request().message {
        DeleteMessage::Soft(req) => req.options,
        other => panic!("not soft: {:?}", other),
    };
    let hard = match command.hard_delete().request().message {
        DeleteMessage::Hard(req) => req.options,
        other => panic!("not hard: {:?}", other),
    };
    assert_eq!(soft, hard);
}

#[test]
fn deletion_replies_name_a_position_or_none() {
    let position = LogPosition { commit_position: 3, prepare_position: 2 };
    let named = Some(PositionOption::Position(position));
    let expected = Some(Position { commit: 3, prepare: 2 });
    assert_eq!(convert_delete_resp(DeleteResp { position_option: named }), expected);
    assert_eq!(convert_tombstone_resp(TombstoneResp { position_option: named }), expected);
    let empty = Some(PositionOption::Empty);
    assert_eq!(convert_delete_resp(DeleteResp { position_option: empty }), None);
    assert_eq!(convert_tombstone_resp(TombstoneResp { position_option: empty }), None);
    assert_eq!(convert_delete_resp(DeleteResp { position_option: None }), None);
    assert_eq!(convert_tombstone_resp(TombstoneResp { position_option: None }), None);
}

#[test]
fn stream_subscription_is_an_endless_forward_read() {
    let subscription = RegularCatchupSubscribe::new("s".to_string());
    assert_eq!(subscription.batch_size, 500);
    let read = ReadStreamEvents::new("s".to_string()).request(1).message;
    let expected =
        Options { count_option: Some(CountOption::Subscription), ..options(read) };
    assert_eq!(options(subscription.request().message), expected);
    let call = subscription
        .start_position(50)
        .require_master(true)
        .resolve_link_tos(LinkTos::ResolveLink)
        .credentials(creds())
        .request();
    assert!(call.require_master);
    assert_eq!(call.credentials, Some(creds()));
    let options = options(call.message);
    assert_eq!(stream_part(&options), ("s".to_string(), RevisionOption::Revision(50)));
    assert!(options.resolve_links);
    assert_eq!(options.read_direction, 0);
    assert_readable(&options);
}

#[test]
fn log_subscription_is_an_endless_forward_read() {
    let subscription = AllCatchupSubscribe::new();
    assert_eq!(subscription.batch_size, 500);
    let read = ReadAllEvents::new().request(1).message;
    let expected =
        Options { count_option: Some(CountOption::Subscription), ..options(read) };
    assert_eq!(options(subscription.request().message), expected);
    let call = subscription
        .start_position(Position { commit: 2, prepare: 1 })
        .require_master(true)
        .resolve_link_tos(LinkTos::ResolveLink)
        .credentials(creds())
        .request();
    assert!(call.require_master);
    assert_eq!(call.credentials, Some(creds()));
    let options = options(call.message);
    assert_eq!(
        log_part(&options),
        AllOption::Position(LogPosition { commit_position: 2, prepare_position: 1 })
    );
    assert!(options.resolve_links);
    assert_readable(&options);
}

fn from_connection(code: i32) -> ErrorStatus {
    ErrorStatus { code, from_connection: true }
}

fn from_server(code: i32) -> ErrorStatus {
    ErrorStatus { code, from_connection: false }
}

#[test]
fn dropped_subscription_starts_over() {
    let stream = RegularCatchupSubscribe::new("s".to_string()).start_position(50);
    let log = AllCatchupSubscribe::new().credentials(creds());
    // Whatever its code, an error of the connection is a drop.
    for code in 0..17 {
        for drop in [SubscriptionSignal::Failed, SubscriptionSignal::Refused] {
            let step = stream.step(drop(from_connection(code)));
            assert!(step.goes_on());
            match step {
                SubscriptionStep::Reopen(call) => {
                    assert_eq!(call.message, stream.request().message)
                }
                other => panic!("not reopened: {:?}", other),
            }
            match log.step(drop(from_connection(code))) {
                SubscriptionStep::Reopen(call) => {
                    assert_eq!(call.message, log.request().message);
                    assert_eq!(call.credentials, Some(creds()));
                }
                other => panic!("not reopened: {:?}", other),
            }
        }
    }
}

#[test]
fn error_of_the_server_is_handed_out_and_ends_the_subscription() {
    let stream = RegularCatchupSubscribe::new("s".to_string());
    let log = AllCatchupSubscribe::new();
    // Among them 2, unknown, and 14, unavailable.
    for code in 0..17 {
        for failure in [SubscriptionSignal::Failed, SubscriptionSignal::Refused] {
            for step in [
                stream.step(failure(from_server(code))),
                log.step(failure(from_server(code))),
            ] {
                assert!(!step.goes_on());
                assert!(matches!(step, SubscriptionStep::Fail(c) if c == code));
            }
        }
    }
}

#[test]
fn end_of_messages_ends_the_subscription() {
    let stream = RegularCatchupSubscribe::new("s".to_string());
    for step in [
        stream.step(SubscriptionSignal::Ended),
        AllCatchupSubscribe::new().step(SubscriptionSignal::Ended),
    ] {
        assert!(!step.goes_on());
        assert!(matches!(step, SubscriptionStep::End));
    }
}

#[test]
fn subscription_delivers_what_it_receives() {
    let resp = || ReadResp {
        event: Some(ReadEvent {
            event: None,
            link: None,
            position: Some(CommitPosition::CommitPosition(17)),
        }),
    };
    let stream = RegularCatchupSubscribe::new("s".to_string());
    match stream.step(SubscriptionSignal::Received(resp())) {
        SubscriptionStep::Deliver(event) => assert_eq!(event.commit_position, Some(17)),
        other => panic!("not delivered: {:?}", other),
    }
    assert!(stream.step(SubscriptionSignal::Received(resp())).goes_on());
    match AllCatchupSubscribe::new().step(SubscriptionSignal::Received(resp())) {
        SubscriptionStep::Deliver(event) => assert_eq!(event.commit_position, Some(17)),
        other => panic!("not delivered: {:?}", other),
    }
}

#[test]
fn standard_settings() {
    let settings = PersistentSubscriptionSettings::default();
    assert!(!settings.resolve_links);
    assert_eq!(settings.revision, 0);
    assert!(!settings.extra_stats);
    assert_eq!(settings.message_timeout, Duration { secs: 30, nanos: 0 });
    assert_eq!(settings.max_retry_count, 500);
    assert_eq!(settings.checkpoint_after, Duration { secs: 2, nanos: 0 });
    assert_eq!(settings.min_checkpoint_count, 10);
    assert_eq!(settings.max_checkpoint_count, 1000);
    assert_eq!(settings.max_subscriber_count, 0);
    assert_eq!(settings.live_buffer_size, 500);
    assert_eq!(settings.read_batch_size, 10);
    assert_eq!(settings.history_buffer_size, 20);
    assert_eq!(settings.named_consumer_strategy, SystemConsumerStrategy::RoundRobin);
}

#[test]
fn persistent_subscription_is_created() {
    let settings =
        PersistentSubscriptionSettings { revision: 77, ..PersistentSubscriptionSettings::default() };
    let call = CreatePersistentSubscription::new("s".to_string(), "g".to_string())
        .settings(settings)
        .credentials(creds())
        .request();
    assert_eq!(call.credentials, Some(creds()));
    let options = call.message.options.unwrap();
    assert_eq!(options.stream_name, "s");
    assert_eq!(options.group_name, "g");
    let written = options.settings.unwrap();
    assert_eq!(written.revision, 77);
    assert_eq!(written.message_timeout, 30_000);
    assert_eq!(written.checkpoint_after, 2_000);
    assert_eq!(written.named_consumer_strategy, 1);
}

#[test]
fn persistent_subscription_is_updated() {
    let settings = PersistentSubscriptionSettings {
        live_buffer_size: 12,
        ..PersistentSubscriptionSettings::default()
    };
    let call = UpdatePersistentSubscription::new("s".to_string(), "g".to_string())
        .settings(settings)
        .credentials(creds())
        .request();
    assert_eq!(call.credentials, Some(creds()));
    let options = call.message.options.unwrap();
    assert_eq!(options.stream_name, "s");
    assert_eq!(options.group_name, "g");
    assert_eq!(options.settings.unwrap().live_buffer_size, 12);
}

#[test]
fn persistent_subscription_is_deleted() {
    let call = DeletePersistentSubscription::new("s".to_string(), "g".to_string())
        .credentials(creds())
        .request();
    assert_eq!(call.credentials, Some(creds()));
    let options = call.message.options.unwrap();
    assert_eq!(options.stream_name, "s");
    assert_eq!(options.group_name, "g");
}

#[test]
fn persistent_subscription_is_connected_to() {
    let connect = || ConnectToPersistentSubscription::new("s".to_string(), "g".to_string());
    let options = |command: ConnectToPersistentSubscription| match command.request().message.content
    {
        Some(persistent::read::Content::Options(options)) => options,
        None => panic!("no options"),
    };
    let written = options(connect());
    assert_eq!(written.stream_name, "s");
    assert_eq!(written.group_name, "g");
    assert_eq!(written.buffer_size, 10);
    assert_eq!(
        written.uuid_option,
        Some(persistent::read::UuidOption {
            content: Some(persistent::read::UuidContent::String)
        })
    );
    assert_eq!(options(connect().batch_size(3)).buffer_size, 3);
    assert_eq!(connect().credentials(creds()).request().credentials, Some(creds()));
}
