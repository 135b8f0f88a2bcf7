//! What holds of the commands and conversions as a whole.
use vstd::prelude::*;

use crate::es6::call::Call;
use crate::es6::commands::catchup::{
    answers, starting_point, AllCatchupSubscribe, ErrorStatus, RegularCatchupSubscribe,
    SubscriptionSignal, SubscriptionStep,
};
use crate::es6::commands::convert::{
    create_settings, id_serves, json_flag_of, lemma_keys_differ, message_proposes, proposes,
    protocol_millis, recorded_as, recorded_fault,
    stream_revision, update_settings,
};
use crate::es6::commands::delete::{DeleteMessage, DeleteStream};
use crate::es6::commands::persistent::{
    ConnectToPersistentSubscription, CreatePersistentSubscription, DeletePersistentSubscription,
    UpdatePersistentSubscription,
};
use crate::es6::commands::read::{
    all_option, log_source, plain_read, revision_option, stream_source, ReadAllEvents,
    ReadStreamEvents,
};
use crate::es6::commands::write::WriteEvents;
use crate::es6::streams::append::{AppendReq, Content, ProposedMessage};
use crate::es6::streams::delete::{DeleteReq, TombstoneReq};
use crate::es6::streams::{read, Uuid, UuidValue};
use crate::es6::types::{
    EventData, ExpectedVersion, PersistentSubscriptionSettings, Position, RecordedEvent, Revision,
};
use crate::ids::{hyphenated_text, law_text_denotes_one_id, law_written_id_reads_back, EventId};
use crate::types::{Credentials, Duration, ReadDirection};

verus! {

/// The text of an identifier, where it is written as text.
pub open spec fn id_text(id: Option<Uuid>) -> Option<Seq<char>> {
    match id {
        Some(Uuid { value: Some(UuidValue::String(text)) }) => Some(text@),
        _ => None,
    }
}

/// An event that was written is read back as it was written. If the server
/// keeps what a message proposed, and perhaps adds metadata of its own, then the
/// recorded event can be read, and it has the identifier, the type, the form, the
/// custom metadata and the content of the event that was written.
pub proof fn law_written_event_reads_back(
    event: EventData,
    id: EventId,
    message: ProposedMessage,
    recorded: read::RecordedEvent,
    value: RecordedEvent,
)
    requires
        message_proposes(message, event, id@),
        id_text(recorded.id) == id_text(message.id),
        message.metadata@.submap_of(recorded.metadata@),
        recorded.custom_metadata@ == message.custom_metadata@,
        recorded.data@ == message.data@,
    ensures
        recorded_fault(recorded) is None,
        recorded_as(recorded, value) ==> {
            &&& value.id@ == id@
            &&& value.event_type@ == event.event_type@
            &&& value.is_json == (event.payload is Json)
            &&& value.metadata@ == event.custom_bytes()
            &&& value.data@ == event.payload.bytes()
        },
{
    lemma_keys_differ();
    reveal_strlit("true");
    reveal_strlit("false");
    assert("true"@.len() != "false"@.len());
    law_written_id_reads_back(id@);
    assert(message.metadata@.contains_key("type"@));
    assert(message.metadata@.contains_key("is-json"@));
    assert(json_flag_of(recorded.metadata@) == Some(event.payload is Json));
    if recorded_as(recorded, value) {
        let text = recorded.id->0.value->0->String_0@;
        law_text_denotes_one_id(text, value.id@, id@);
    }
}

/// An event is read back as it was written, whether it came with an identifier
/// of its own or was given a random one. Its own goes out as text, and comes back,
/// whatever the event holds.
pub proof fn law_sent_event_reads_back(
    event: EventData,
    req: AppendReq,
    message: ProposedMessage,
    recorded: read::RecordedEvent,
    value: RecordedEvent,
)
    requires
        exists|id: EventId| id_serves(event, id@) && #[trigger] proposes(req, event, id@),
        req.content == Some(Content::ProposedMessage(message)),
        id_text(recorded.id) == id_text(message.id),
        message.metadata@.submap_of(recorded.metadata@),
        recorded.custom_metadata@ == message.custom_metadata@,
        recorded.data@ == message.data@,
    ensures
        event.id_opt matches Some(own) ==> id_text(message.id) == Some(hyphenated_text(own@)),
        recorded_fault(recorded) is None,
        recorded_as(recorded, value) ==> {
            &&& id_serves(event, value.id@)
            &&& event.id_opt matches Some(own) ==> value.id@ == own@
            &&& value.event_type@ == event.event_type@
            &&& value.is_json == (event.payload is Json)
            &&& value.metadata@ == event.custom_bytes()
            &&& value.data@ == event.payload.bytes()
        },
{
    let id = choose|id: EventId| id_serves(event, id@) && #[trigger] proposes(req, event, id@);
    law_written_event_reads_back(event, id, message, recorded, value);
}

/// A message of the server says one thing: two values that are what it says
/// have the same fields.
pub proof fn law_message_says_one_value(
    message: read::RecordedEvent,
    a: RecordedEvent,
    b: RecordedEvent,
)
    requires
        recorded_as(message, a),
        recorded_as(message, b),
    ensures
        a.id@ == b.id@,
        a.stream_id@ == b.stream_id@,
        a.revision == b.revision,
        a.position == b.position,
        a.event_type@ == b.event_type@,
        a.is_json == b.is_json,
        a.metadata@ == b.metadata@,
        a.data@ == b.data@,
{
    let text = message.id->0.value->0->String_0@;
    law_text_denotes_one_id(text, a.id@, b.id@);
}

/// Different expected versions are written differently.
pub proof fn law_versions_stay_apart(a: ExpectedVersion, b: ExpectedVersion)
    requires
        stream_revision(a) == stream_revision(b),
    ensures
        a == b,
{
}

/// Different starting points are written differently, in a stream and in the
/// transaction log.
pub proof fn law_starting_points_stay_apart(
    a: Revision<u64>,
    b: Revision<u64>,
    p: Revision<Position>,
    q: Revision<Position>,
)
    ensures
        revision_option(a) == revision_option(b) ==> a == b,
        all_option(p) == all_option(q) ==> p == q,
{
}

/// A span of time is written in whole milliseconds, as long as their number fits.
pub proof fn law_millis_are_exact(span: Duration)
    requires
        span@ / 1_000_000 <= i64::MAX,
    ensures
        protocol_millis(span) == span@ / 1_000_000,
{
}

/// The creation and the update of a subscription write the same settings alike.
pub proof fn law_settings_are_written_alike(settings: PersistentSubscriptionSettings)
    ensures
        ({
            let a = create_settings(settings);
            let b = update_settings(settings);
            &&& a.resolve_links == b.resolve_links
            &&& a.revision == b.revision
            &&& a.extra_statistics == b.extra_statistics
            &&& a.message_timeout == b.message_timeout
            &&& a.max_retry_count == b.max_retry_count
            &&& a.checkpoint_after == b.checkpoint_after
            &&& a.min_checkpoint_count == b.min_checkpoint_count
            &&& a.max_checkpoint_count == b.max_checkpoint_count
            &&& a.max_subscriber_count == b.max_subscriber_count
            &&& a.live_buffer_size == b.live_buffer_size
            &&& a.read_batch_size == b.read_batch_size
            &&& a.history_buffer_size == b.history_buffer_size
            &&& a.named_consumer_strategy == b.named_consumer_strategy
        }),
{
}

/// Whether a request leaves no event out, and has the server write identifiers
/// as text, the one form in which they can be read.
pub open spec fn asks_for_readable_events(req: read::ReadReq) -> bool {
    &&& req.options matches Some(options)
    &&& options.filter_option == Some(read::FilterOption::NoFilter)
    &&& options.uuid_option == Some(
        read::UuidOption { content: Some(read::UuidContent::String) },
    )
}

/// Every read and every subscription asks for events that can be read.
pub proof fn law_reads_ask_for_readable_events(
    stream_read: ReadStreamEvents,
    log_read: ReadAllEvents,
    stream_subscription: RegularCatchupSubscribe,
    log_subscription: AllCatchupSubscribe,
    count: u64,
)
    ensures
        asks_for_readable_events(stream_read.call(count).message),
        asks_for_readable_events(log_read.call(count).message),
        asks_for_readable_events(stream_subscription.call().message),
        asks_for_readable_events(log_subscription.call().message),
{
}

/// The same request, with no end.
pub open spec fn without_end(req: read::ReadReq) -> read::ReadReq {
    match req.options {
        Some(options) => read::ReadReq {
            options: Some(
                read::Options { count_option: Some(read::CountOption::Subscription), ..options },
            ),
        },
        None => req,
    }
}

/// A catch-up subscription to a stream is the forward read of that stream from
/// the same place, with no end.
pub proof fn law_stream_subscription_is_endless_read(
    subscription: RegularCatchupSubscribe,
    read: ReadStreamEvents,
    count: u64,
)
    requires
        read.stream == subscription.stream_id,
        read.revision == starting_point(subscription.revision),
        read.direction == ReadDirection::Forward,
        read.resolve_link_tos == subscription.resolve_link_tos,
    ensures
        subscription.call().message == without_end(read.call(count).message),
{
}

/// A catch-up subscription to the transaction log is the forward read of the log
/// from the same place, with no end.
pub proof fn law_log_subscription_is_endless_read(
    subscription: AllCatchupSubscribe,
    read: ReadAllEvents,
    count: u64,
)
    requires
        read.revision == starting_point(subscription.revision),
        read.direction == ReadDirection::Forward,
        read.resolve_link_tos == subscription.resolve_link_tos,
    ensures
        subscription.call().message == without_end(read.call(count).message),
{
}

/// Where nothing else is asked for, reads and subscriptions start at the
/// beginning, go forward and resolve no links.
pub proof fn law_reads_start_at_the_beginning(stream: String, count: u64)
    ensures
        ReadStreamEvents::fresh(stream).call(count).message == plain_read(
            stream_source(stream, Revision::Start),
            false,
            read::CountOption::Count(count),
            ReadDirection::Forward,
        ),
        ReadAllEvents::fresh().call(count).message == plain_read(
            log_source(Revision::Start),
            false,
            read::CountOption::Count(count),
            ReadDirection::Forward,
        ),
        RegularCatchupSubscribe::fresh(stream).call().message == without_end(
            ReadStreamEvents::fresh(stream).call(count).message,
        ),
        AllCatchupSubscribe::fresh().call().message == without_end(
            ReadAllEvents::fresh().call(count).message,
        ),
{
}

/// However often the connection of a subscription drops, while it is open or
/// while it is being opened anew, it is opened each time by the same call.
pub proof fn law_drops_start_over(
    opening: Call<read::ReadReq>,
    first_error: ErrorStatus,
    second_error: ErrorStatus,
    first: SubscriptionStep,
    second: SubscriptionStep,
)
    requires
        first_error.is_drop(),
        second_error.is_drop(),
        answers(opening, SubscriptionSignal::Failed(first_error), first),
        ({
            ||| answers(first->Reopen_0, SubscriptionSignal::Failed(second_error), second)
            ||| answers(first->Reopen_0, SubscriptionSignal::Refused(second_error), second)
        }),
    ensures
        first == SubscriptionStep::Reopen(opening),
        second == first,
{
}

/// A subscription is over when the server ends it, or upon an error that is not
/// a lost connection, and at no other time; the error is handed out.
pub proof fn law_subscription_ends_only_by_end_or_error(
    opening: Call<read::ReadReq>,
    signal: SubscriptionSignal,
    step: SubscriptionStep,
)
    requires
        answers(opening, signal, step),
    ensures
        !step.continues() <==> match signal {
            SubscriptionSignal::Received(_) => false,
            SubscriptionSignal::Failed(error) => !error.is_drop(),
            SubscriptionSignal::Refused(error) => !error.is_drop(),
            SubscriptionSignal::Ended => true,
        },
        match signal {
            SubscriptionSignal::Failed(error) | SubscriptionSignal::Refused(error) => (step
                == SubscriptionStep::Fail(error.code)) == !error.is_drop(),
            _ => !(step is Fail),
        },
{
}

/// The two kinds of deletion ask the same of the stream: they differ in nothing
/// but the kind of their message.
pub proof fn law_deletions_ask_the_same(command: DeleteStream)
    ensures
        (DeleteStream { hard_delete: true, ..command }).call() == (Call {
            message: DeleteMessage::Hard(TombstoneReq { options: Some(command.options()) }),
            require_master: command.require_master,
            credentials: command.creds,
        }),
        (DeleteStream { hard_delete: false, ..command }).call() == (Call {
            message: DeleteMessage::Soft(DeleteReq { options: Some(command.options()) }),
            require_master: command.require_master,
            credentials: command.creds,
        }),
{
}

/// A deletion is soft unless it is made hard.
pub proof fn law_deletion_is_soft_by_default(stream: String)
    ensures
        DeleteStream::fresh(stream).call().message is Soft,
        (DeleteStream { hard_delete: false, ..DeleteStream::fresh(stream) })
            == DeleteStream::fresh(stream),
{
}

/// Every command is performed with the credentials that it was given, and they
/// change nothing else of the call.
pub proof fn law_commands_carry_their_credentials(
    creds: Credentials,
    write: WriteEvents,
    delete: DeleteStream,
    stream_read: ReadStreamEvents,
    log_read: ReadAllEvents,
    stream_subscription: RegularCatchupSubscribe,
    log_subscription: AllCatchupSubscribe,
    create: CreatePersistentSubscription,
    update: UpdatePersistentSubscription,
    remove: DeletePersistentSubscription,
    connect: ConnectToPersistentSubscription,
    count: u64,
)
    ensures
        (WriteEvents { creds: Some(creds), ..write }).call() == (Call {
            credentials: Some(creds),
            ..write.call()
        }),
        (DeleteStream { creds: Some(creds), ..delete }).call() == (Call {
            credentials: Some(creds),
            ..delete.call()
        }),
        (ReadStreamEvents { creds: Some(creds), ..stream_read }).call(count) == (Call {
            credentials: Some(creds),
            ..stream_read.call(count)
        }),
        (ReadAllEvents { creds: Some(creds), ..log_read }).call(count) == (Call {
            credentials: Some(creds),
            ..log_read.call(count)
        }),
        (RegularCatchupSubscribe { creds_opt: Some(creds), ..stream_subscription }).call() == (
        Call { credentials: Some(creds), ..stream_subscription.call() }),
        (AllCatchupSubscribe { creds_opt: Some(creds), ..log_subscription }).call() == (Call {
            credentials: Some(creds),
            ..log_subscription.call()
        }),
        (CreatePersistentSubscription { creds: Some(creds), ..create }).call() == (Call {
            credentials: Some(creds),
            ..create.call()
        }),
        (UpdatePersistentSubscription { creds: Some(creds), ..update }).call() == (Call {
            credentials: Some(creds),
            ..update.call()
        }),
        (DeletePersistentSubscription { creds: Some(creds), ..remove }).call() == (Call {
            credentials: Some(creds),
            ..remove.call()
        }),
        (ConnectToPersistentSubscription { creds: Some(creds), ..connect }).call() == (Call {
            credentials: Some(creds),
            ..connect.call()
        }),
{
}

/// Whether the master is asked for goes with the call, and changes nothing else
/// of it.
pub proof fn law_commands_carry_require_master(
    require_master: bool,
    write: WriteEvents,
    delete: DeleteStream,
    stream_read: ReadStreamEvents,
    log_read: ReadAllEvents,
    stream_subscription: RegularCatchupSubscribe,
    log_subscription: AllCatchupSubscribe,
    count: u64,
)
    ensures
        (WriteEvents { require_master, ..write }).call() == (Call {
            require_master,
            ..write.call()
        }),
        (DeleteStream { require_master, ..delete }).call() == (Call {
            require_master,
            ..delete.call()
        }),
        (ReadStreamEvents { require_master, ..stream_read }).call(count) == (Call {
            require_master,
            ..stream_read.call(count)
        }),
        (ReadAllEvents { require_master, ..log_read }).call(count) == (Call {
            require_master,
            ..log_read.call(count)
        }),
        (RegularCatchupSubscribe { require_master, ..stream_subscription }).call() == (Call {
            require_master,
            ..stream_subscription.call()
        }),
        (AllCatchupSubscribe { require_master, ..log_subscription }).call() == (Call {
            require_master,
            ..log_subscription.call()
        }),
{
}

} // verus!
