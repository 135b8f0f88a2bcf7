//! What the requests of the commands hold, said of the calls themselves: every
//! field of a message, in terms of the command that it carries out.
use vstd::prelude::*;

use crate::es6::call::Call;
use crate::es6::commands::catchup::{AllCatchupSubscribe, RegularCatchupSubscribe};
use crate::es6::commands::convert::{
    convert_event_data, convert_expected_version, convert_settings_create,
    convert_settings_update, id_serves, lemma_keys_differ, propose_event, proposes,
    protocol_millis,
};
use crate::es6::commands::delete::{DeleteMessage, DeleteStream};
use crate::es6::commands::persistent::{
    ConnectToPersistentSubscription, CreatePersistentSubscription, DeletePersistentSubscription,
    UpdatePersistentSubscription,
};
use crate::es6::commands::read::{
    convert_direction, convert_log_revision, convert_revision, make_plain_read, ReadAllEvents,
    ReadStreamEvents,
};
use crate::es6::commands::write::WriteEvents;
use crate::es6::persistent::{create, delete as removal, read as connection, update};
use crate::es6::streams::append::{AppendReq, Content, ProposedMessage};
use crate::es6::streams::delete::Options as DeleteOptions;
use crate::es6::streams::read::{
    AllOption, CountOption, FilterOption, Options, ReadReq, RevisionOption, StreamOption,
    UuidContent,
};
use crate::es6::streams::{ExpectedStreamRevision, UuidValue};
use crate::es6::types::{
    EventData, ExpectedVersion, PersistentSubscriptionSettings, Position, Revision,
};
use crate::ids::{is_random_id, EventId};
use crate::types::{Duration, Payload, ReadDirection, SystemConsumerStrategy};
use crate::value_laws::{is_written_as, lemma_written};

verus! {

/// Whether a message asks of the stream what the command asks of it.
pub open spec fn asks_for_version(
    asked: Option<ExpectedStreamRevision>,
    version: ExpectedVersion,
) -> bool {
    match version {
        ExpectedVersion::Any => asked == Some(ExpectedStreamRevision::Any),
        ExpectedVersion::StreamExists => asked == Some(ExpectedStreamRevision::StreamExists),
        ExpectedVersion::NoStream => asked == Some(ExpectedStreamRevision::NoStream),
        ExpectedVersion::Exact(revision) => asked == Some(
            ExpectedStreamRevision::Revision(revision),
        ),
    }
}

/// An expected version is asked for as it is.
pub proof fn law_version_is_asked_for(version: ExpectedVersion, r: ExpectedStreamRevision)
    ensures
        call_requires(convert_expected_version, (version,)),
        call_ensures(convert_expected_version, (version,), r) ==> asks_for_version(
            Some(r),
            version,
        ),
{
}

/// A write opens with a header that names its stream and its expected version.
pub proof fn law_write_names_stream_and_version(c: WriteEvents, r: Call<AppendReq>)
    ensures
        call_requires(WriteEvents::request, (c,)),
        call_ensures(WriteEvents::request, (c,), r) ==> {
            &&& r.message.content matches Some(Content::Options(options))
            &&& options.stream_name == c.stream
            &&& asks_for_version(options.expected_stream_revision, c.version)
            &&& r.require_master == c.require_master
            &&& r.credentials == c.creds
        },
{
}

/// Whether the options of a deletion name the stream and the version of the command.
pub open spec fn deletes(options: Option<DeleteOptions>, c: DeleteStream) -> bool {
    &&& options matches Some(options)
    &&& options.stream_name == c.stream
    &&& asks_for_version(options.expected_stream_revision, c.version)
}

/// A deletion, soft or hard, names its stream and its expected version.
pub proof fn law_deletion_names_stream_and_version(c: DeleteStream, r: Call<DeleteMessage>)
    ensures
        call_requires(DeleteStream::request, (c,)),
        call_ensures(DeleteStream::request, (c,), r) ==> {
            &&& match r.message {
                DeleteMessage::Soft(req) => !c.hard_delete && deletes(req.options, c),
                DeleteMessage::Hard(req) => c.hard_delete && deletes(req.options, c),
            }
            &&& r.require_master == c.require_master
            &&& r.credentials == c.creds
        },
{
}

/// Deletions with the same message are of one kind, of one stream and at one
/// expected version.
pub proof fn law_deletions_stay_apart(
    a: DeleteStream,
    b: DeleteStream,
    r: Call<DeleteMessage>,
    s: Call<DeleteMessage>,
)
    requires
        call_ensures(DeleteStream::request, (a,), r),
        call_ensures(DeleteStream::request, (b,), s),
        r.message == s.message,
    ensures
        a.hard_delete == b.hard_delete,
        a.stream == b.stream,
        a.version == b.version,
{
    law_deletion_names_stream_and_version(a, r);
    law_deletion_names_stream_and_version(b, s);
}

/// Whether the options of a read leave no event out, have identifiers written as
/// text, and go `direction`.
pub open spec fn reads_plainly(options: Options, direction: ReadDirection) -> bool {
    &&& options.filter_option == Some(FilterOption::NoFilter)
    &&& options.uuid_option matches Some(uuid) && uuid.content == Some(UuidContent::String)
    &&& options.read_direction == (match direction {
        ReadDirection::Forward => 0int,
        ReadDirection::Backward => 1int,
    })
}

/// Whether a read of a stream sets in where it is asked to.
pub open spec fn sets_in_at(asked: Option<RevisionOption>, revision: Revision<u64>) -> bool {
    match revision {
        Revision::Start => asked == Some(RevisionOption::Start),
        Revision::End => asked == Some(RevisionOption::End),
        Revision::Exact(number) => asked == Some(RevisionOption::Revision(number)),
    }
}

/// Whether a read of the transaction log sets in where it is asked to.
pub open spec fn sets_in_at_position(
    asked: Option<AllOption>,
    revision: Revision<Position>,
) -> bool {
    match revision {
        Revision::Start => asked == Some(AllOption::Start),
        Revision::End => asked == Some(AllOption::End),
        Revision::Exact(position) => {
            &&& asked matches Some(AllOption::Position(written))
            &&& written.commit_position == position.commit
            &&& written.prepare_position == position.prepare
        },
    }
}

/// Whether what is read is `stream`, from `revision` on.
pub open spec fn reads_stream(
    source: Option<StreamOption>,
    stream: String,
    revision: Revision<u64>,
) -> bool {
    &&& source matches Some(StreamOption::Stream(options))
    &&& options.stream_name == stream
    &&& sets_in_at(options.revision_option, revision)
}

/// Whether what is read is the transaction log, from `revision` on.
pub open spec fn reads_log(source: Option<StreamOption>, revision: Revision<Position>) -> bool {
    &&& source matches Some(StreamOption::All(options))
    &&& sets_in_at_position(options.all_option, revision)
}

/// Directions and starting points are written as they are.
pub proof fn law_places_are_written(
    direction: ReadDirection,
    number: i32,
    revision: Revision<u64>,
    option: RevisionOption,
    position: Revision<Position>,
    log_option: AllOption,
)
    ensures
        call_requires(convert_direction, (direction,)),
        call_ensures(convert_direction, (direction,), number) ==> number == (match direction {
            ReadDirection::Forward => 0int,
            ReadDirection::Backward => 1int,
        }),
        call_requires(convert_revision, (revision,)),
        call_ensures(convert_revision, (revision,), option) ==> sets_in_at(Some(option), revision),
        call_requires(convert_log_revision, (position,)),
        call_ensures(convert_log_revision, (position,), log_option) ==> sets_in_at_position(
            Some(log_option),
            position,
        ),
{
}

/// A plain read asks for what it is given, and for nothing else.
pub proof fn law_plain_read_asks_for_what_it_is_given(
    source: StreamOption,
    resolve_links: bool,
    count: CountOption,
    direction: ReadDirection,
    r: ReadReq,
)
    ensures
        call_requires(make_plain_read, (source, resolve_links, count, direction)),
        call_ensures(make_plain_read, (source, resolve_links, count, direction), r) ==> {
            &&& r.options matches Some(options)
            &&& options.stream_option == Some(source)
            &&& options.resolve_links == resolve_links
            &&& options.count_option == Some(count)
            &&& reads_plainly(options, direction)
        },
{
}

/// A read of a stream asks for as many events as it is told to, of its stream,
/// from its place, in its direction, whichever they are.
pub proof fn law_stream_read_asks_for_its_events(
    c: ReadStreamEvents,
    count: u64,
    r: Call<ReadReq>,
)
    ensures
        call_requires(ReadStreamEvents::request, (c, count)),
        call_ensures(ReadStreamEvents::request, (c, count), r) ==> {
            &&& r.message.options matches Some(options)
            &&& options.count_option == Some(CountOption::Count(count))
            &&& reads_stream(options.stream_option, c.stream, c.revision)
            &&& options.resolve_links == c.resolve_link_tos
            &&& reads_plainly(options, c.direction)
            &&& r.require_master == c.require_master
            &&& r.credentials == c.creds
        },
{
}

/// Two reads of streams with the same message read the same.
pub proof fn law_stream_reads_stay_apart(
    a: ReadStreamEvents,
    m: u64,
    r: Call<ReadReq>,
    b: ReadStreamEvents,
    n: u64,
    s: Call<ReadReq>,
)
    requires
        call_ensures(ReadStreamEvents::request, (a, m), r),
        call_ensures(ReadStreamEvents::request, (b, n), s),
        r.message == s.message,
    ensures
        m == n,
        a.stream == b.stream,
        a.revision == b.revision,
        a.direction == b.direction,
        a.resolve_link_tos == b.resolve_link_tos,
{
    law_stream_read_asks_for_its_events(a, m, r);
    law_stream_read_asks_for_its_events(b, n, s);
}

/// A read of the transaction log asks for as many events as it is told to, from
/// its place, in its direction, whichever they are.
pub proof fn law_log_read_asks_for_its_events(c: ReadAllEvents, count: u64, r: Call<ReadReq>)
    ensures
        call_requires(ReadAllEvents::request, (c, count)),
        call_ensures(ReadAllEvents::request, (c, count), r) ==> {
            &&& r.message.options matches Some(options)
            &&& options.count_option == Some(CountOption::Count(count))
            &&& reads_log(options.stream_option, c.revision)
            &&& options.resolve_links == c.resolve_link_tos
            &&& reads_plainly(options, c.direction)
            &&& r.require_master == c.require_master
            &&& r.credentials == c.creds
        },
{
}

/// Two reads of the transaction log with the same message read the same.
pub proof fn law_log_reads_stay_apart(
    a: ReadAllEvents,
    m: u64,
    r: Call<ReadReq>,
    b: ReadAllEvents,
    n: u64,
    s: Call<ReadReq>,
)
    requires
        call_ensures(ReadAllEvents::request, (a, m), r),
        call_ensures(ReadAllEvents::request, (b, n), s),
        r.message == s.message,
    ensures
        m == n,
        a.revision == b.revision,
        a.direction == b.direction,
        a.resolve_link_tos == b.resolve_link_tos,
{
    law_log_read_asks_for_its_events(a, m, r);
    law_log_read_asks_for_its_events(b, n, s);
}

/// Whether `opening` asks for the events of the stream that `c` follows.
pub open spec fn opens_stream(c: RegularCatchupSubscribe, opening: Call<ReadReq>) -> bool {
    &&& opening.message.options matches Some(options)
    &&& options.count_option == Some(CountOption::Subscription)
    &&& reads_stream(
        options.stream_option,
        c.stream_id,
        match c.revision {
            Some(number) => Revision::Exact(number),
            None => Revision::Start,
        },
    )
    &&& options.resolve_links == c.resolve_link_tos
    &&& reads_plainly(options, ReadDirection::Forward)
    &&& opening.require_master == c.require_master
    &&& opening.credentials == c.creds_opt
}

/// Whether `opening` asks for the events of the log from where `c` follows it.
pub open spec fn opens_log(c: AllCatchupSubscribe, opening: Call<ReadReq>) -> bool {
    &&& opening.message.options matches Some(options)
    &&& options.count_option == Some(CountOption::Subscription)
    &&& reads_log(
        options.stream_option,
        match c.revision {
            Some(position) => Revision::Exact(position),
            None => Revision::Start,
        },
    )
    &&& options.resolve_links == c.resolve_link_tos
    &&& reads_plainly(options, ReadDirection::Forward)
    &&& opening.require_master == c.require_master
    &&& opening.credentials == c.creds_opt
}

/// A subscription to a stream has no end, goes forward, and sets in at the event
/// number it was given, or at the beginning.
pub proof fn law_stream_subscription_asks_for_its_events(
    c: RegularCatchupSubscribe,
    r: Call<ReadReq>,
)
    ensures
        call_requires(RegularCatchupSubscribe::request, (&c,)),
        call_ensures(RegularCatchupSubscribe::request, (&c,), r) ==> opens_stream(c, r),
{
}

/// A subscription to the transaction log has no end, goes forward, and sets in at
/// the position it was given, or at the beginning.
pub proof fn law_log_subscription_asks_for_its_events(c: AllCatchupSubscribe, r: Call<ReadReq>)
    ensures
        call_requires(AllCatchupSubscribe::request, (&c,)),
        call_ensures(AllCatchupSubscribe::request, (&c,), r) ==> opens_log(c, r),
{
}

/// Whether `millis` are the low 64 bits of the whole milliseconds of `span`.
pub open spec fn counts_millis(millis: i64, span: Duration) -> bool {
    (span.secs * 1_000 + span.nanos as int / 1_000_000 - millis) % 0x1_0000_0000_0000_0000 == 0
}

proof fn lemma_counts_millis(span: Duration)
    ensures
        counts_millis(protocol_millis(span), span),
{
    let n = span.secs * 1_000 + span.nanos as int / 1_000_000;
    assert(span@ / 1_000_000 == n);
}

/// Whether `number` stands for `strategy`.
pub open spec fn stands_for(number: i32, strategy: SystemConsumerStrategy) -> bool {
    match strategy {
        SystemConsumerStrategy::DispatchToSingle => number == 0,
        SystemConsumerStrategy::RoundRobin => number == 1,
        SystemConsumerStrategy::Pinned => number == 2,
    }
}

/// Whether the settings of a creation are, one by one, those that were given.
pub open spec fn creates_with(w: create::Settings, s: PersistentSubscriptionSettings) -> bool {
    &&& w.resolve_links == s.resolve_links
    &&& w.revision == s.revision
    &&& w.extra_statistics == s.extra_stats
    &&& counts_millis(w.message_timeout, s.message_timeout)
    &&& w.max_retry_count == s.max_retry_count
    &&& counts_millis(w.checkpoint_after, s.checkpoint_after)
    &&& w.min_checkpoint_count == s.min_checkpoint_count
    &&& w.max_checkpoint_count == s.max_checkpoint_count
    &&& w.max_subscriber_count == s.max_subscriber_count
    &&& w.live_buffer_size == s.live_buffer_size
    &&& w.read_batch_size == s.read_batch_size
    &&& w.history_buffer_size == s.history_buffer_size
    &&& stands_for(w.named_consumer_strategy, s.named_consumer_strategy)
}

/// Whether the settings of an update are, one by one, those that were given.
pub open spec fn updates_to(w: update::Settings, s: PersistentSubscriptionSettings) -> bool {
    &&& w.resolve_links == s.resolve_links
    &&& w.revision == s.revision
    &&& w.extra_statistics == s.extra_stats
    &&& counts_millis(w.message_timeout, s.message_timeout)
    &&& w.max_retry_count == s.max_retry_count
    &&& counts_millis(w.checkpoint_after, s.checkpoint_after)
    &&& w.min_checkpoint_count == s.min_checkpoint_count
    &&& w.max_checkpoint_count == s.max_checkpoint_count
    &&& w.max_subscriber_count == s.max_subscriber_count
    &&& w.live_buffer_size == s.live_buffer_size
    &&& w.read_batch_size == s.read_batch_size
    &&& w.history_buffer_size == s.history_buffer_size
    &&& stands_for(w.named_consumer_strategy, s.named_consumer_strategy)
}

/// Settings are written one by one, for a creation and for an update.
pub proof fn law_settings_are_written_one_by_one(
    s: PersistentSubscriptionSettings,
    a: create::Settings,
    b: update::Settings,
)
    ensures
        call_requires(convert_settings_create, (s,)),
        call_ensures(convert_settings_create, (s,), a) ==> creates_with(a, s),
        call_requires(convert_settings_update, (s,)),
        call_ensures(convert_settings_update, (s,), b) ==> updates_to(b, s),
{
    lemma_counts_millis(s.message_timeout);
    lemma_counts_millis(s.checkpoint_after);
}

/// The creation of a subscription names its stream and its group, and carries
/// every one of its settings.
pub proof fn law_creation_carries_every_setting(
    c: CreatePersistentSubscription,
    r: Call<create::CreateReq>,
)
    ensures
        call_requires(CreatePersistentSubscription::request, (c,)),
        call_ensures(CreatePersistentSubscription::request, (c,), r) ==> {
            &&& r.message.options matches Some(options)
            &&& options.stream_name == c.stream_id
            &&& options.group_name == c.group_name
            &&& options.settings matches Some(written) && creates_with(written, c.sub_settings)
            &&& !r.require_master
            &&& r.credentials == c.creds
        },
{
    lemma_counts_millis(c.sub_settings.message_timeout);
    lemma_counts_millis(c.sub_settings.checkpoint_after);
}

/// The update of a subscription names its stream and its group, and carries every
/// one of its settings.
pub proof fn law_update_carries_every_setting(
    c: UpdatePersistentSubscription,
    r: Call<update::UpdateReq>,
)
    ensures
        call_requires(UpdatePersistentSubscription::request, (c,)),
        call_ensures(UpdatePersistentSubscription::request, (c,), r) ==> {
            &&& r.message.options matches Some(options)
            &&& options.stream_name == c.stream_id
            &&& options.group_name == c.group_name
            &&& options.settings matches Some(written) && updates_to(written, c.sub_settings)
            &&& !r.require_master
            &&& r.credentials == c.creds
        },
{
    lemma_counts_millis(c.sub_settings.message_timeout);
    lemma_counts_millis(c.sub_settings.checkpoint_after);
}

/// A creation and an update with equal settings send equal settings.
pub proof fn law_creation_and_update_send_the_same(
    c: CreatePersistentSubscription,
    r: Call<create::CreateReq>,
    u: UpdatePersistentSubscription,
    s: Call<update::UpdateReq>,
)
    requires
        call_ensures(CreatePersistentSubscription::request, (c,), r),
        call_ensures(UpdatePersistentSubscription::request, (u,), s),
        c.sub_settings == u.sub_settings,
    ensures
        ({
            let a = r.message.options->0.settings->0;
            let b = s.message.options->0.settings->0;
            &&& a.resolve_links == b.resolve_links
            &&& a.revision == b.revision
            &&& a.extra_statistics == b.extra_statistics
            &&& a.message_timeout == b.message_timeout
            &&& a.max_retry_count == b.max_retry_count
            &&& a.checkpoint_after == b.checkpoint_after
            &&& a.min_checkpoint_count == b.min_checkpoint_count
            &&& a.max_checkpoint_count == b.max_checkpoint_count
            &&& a.max_subscriber_count == b.max_subscriber_count
            &&& a.live_buffer_size == b.live_buffer_size
            &&& a.read_batch_size == b.read_batch_size
            &&& a.history_buffer_size == b.history_buffer_size
            &&& a.named_consumer_strategy == b.named_consumer_strategy
        }),
{
}

/// The deletion of a subscription names its stream and its group.
pub proof fn law_removal_names_stream_and_group(
    c: DeletePersistentSubscription,
    r: Call<removal::DeleteReq>,
)
    ensures
        call_requires(DeletePersistentSubscription::request, (c,)),
        call_ensures(DeletePersistentSubscription::request, (c,), r) ==> {
            &&& r.message.options matches Some(options)
            &&& options.stream_name == c.stream_id
            &&& options.group_name == c.group_name
            &&& !r.require_master
            &&& r.credentials == c.creds
        },
{
}

/// The connection to a subscription names its stream, its group and its buffer
/// size, and has identifiers written as text.
pub proof fn law_connection_names_stream_group_and_size(
    c: ConnectToPersistentSubscription,
    r: Call<connection::ReadReq>,
)
    ensures
        call_requires(ConnectToPersistentSubscription::request, (c,)),
        call_ensures(ConnectToPersistentSubscription::request, (c,), r) ==> {
            &&& r.message.content matches Some(connection::Content::Options(options))
            &&& options.stream_name == c.stream_id
            &&& options.group_name == c.group_name
            &&& options.buffer_size == c.batch_size
            &&& options.uuid_option matches Some(uuid) && uuid.content == Some(
                connection::UuidContent::String,
            )
            &&& !r.require_master
            &&& r.credentials == c.creds
        },
{
}

/// Whether `bytes` are the bytes of `payload`.
pub open spec fn holds_bytes(payload: Payload, bytes: Seq<u8>) -> bool {
    match payload {
        Payload::Json(own) => bytes == own@,
        Payload::Binary(own) => bytes == own@,
    }
}

/// Whether `message` holds all of `event` but its identifier: its type and its
/// form as the only metadata, its custom metadata, and its content.
pub open spec fn holds_event(message: ProposedMessage, event: EventData) -> bool {
    &&& forall|key: Seq<char>| #[trigger]
        message.metadata@.contains_key(key) <==> key == "type"@ || key == "is-json"@
    &&& message.metadata@["type"@] == event.event_type@
    &&& match event.payload {
        Payload::Json(_) => message.metadata@["is-json"@] == "true"@,
        Payload::Binary(_) => message.metadata@["is-json"@] == "false"@,
    }
    &&& match event.custom_metadata {
        Some(custom) => holds_bytes(custom, message.custom_metadata@),
        None => message.custom_metadata@.len() == 0,
    }
    &&& holds_bytes(event.payload, message.data@)
}

/// An event is proposed whole, under the identifier that it is given.
pub proof fn law_event_is_proposed_whole(event: EventData, id: EventId, r: AppendReq)
    ensures
        call_requires(propose_event, (event, id)),
        call_ensures(propose_event, (event, id), r) ==> {
            &&& r.content matches Some(Content::ProposedMessage(message))
            &&& message.id matches Some(uuid) && uuid.value matches Some(UuidValue::String(text))
                && is_written_as(id.bytes@, text@)
            &&& holds_event(message, event)
        },
{
    lemma_keys_differ();
    lemma_written(id.bytes@);
}

/// An event is sent whole, whatever its content: under its own identifier where
/// it has one, and else under one that is marked as random.
pub proof fn law_event_is_sent_under_its_own_id(event: EventData, r: AppendReq)
    ensures
        call_requires(convert_event_data, (event,)),
        call_ensures(convert_event_data, (event,), r) ==> {
            &&& r.content matches Some(Content::ProposedMessage(message))
            &&& message.id matches Some(uuid) && uuid.value matches Some(UuidValue::String(text))
                && match event.id_opt {
                Some(own) => is_written_as(own.bytes@, text@),
                None => {
                    &&& exists|id: EventId| #[trigger] is_written_as(id.bytes@, text@)
                    &&& text@.len() == 36
                    &&& text@[14] == '4'
                    &&& text@[19] == '8' || text@[19] == '9' || text@[19] == 'a' || text@[19]
                        == 'b'
                },
            }
            &&& holds_event(message, event)
        },
{
    if call_ensures(convert_event_data, (event,), r) {
        lemma_keys_differ();
        let id = choose|id: EventId|
            id_serves(event, id@) && #[trigger] proposes(r, event, id@);
        lemma_written(id.bytes@);
        if event.id_opt is None {
            assert(is_random_id(id@));
            let b = id.bytes@;
            assert(b[6] as int / 16 == 4);
            assert(b[8] as int / 16 >= 8);
            assert(b[8] as int / 16 < 12);
        }
    }
}

} // verus!
