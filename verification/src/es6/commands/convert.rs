//! From values to messages and back.
use vstd::prelude::*;

use crate::es6::fault::ReplyFault;
use crate::es6::persistent::{create, update};
use crate::es6::streams::append::{
    AppendReq, AppendResp, Content, CurrentRevisionOption, ProposedMessage,
};
use crate::es6::streams::{read, ExpectedStreamRevision, PositionOption, Uuid, UuidValue};
use crate::es6::types::{
    EventData, ExpectedVersion, PersistentSubscriptionSettings, Position, RecordedEvent,
    ResolvedEvent, WriteResult,
};
use crate::ids::{denotes, hyphenated_text, is_id_text, is_random_id, EventId};
use crate::metadata::Metadata;
use crate::types::{Duration, SystemConsumerStrategy};

verus! {

/// How the protocol writes an expected version.
pub open spec fn stream_revision(version: ExpectedVersion) -> ExpectedStreamRevision {
    match version {
        ExpectedVersion::Any => ExpectedStreamRevision::Any,
        ExpectedVersion::StreamExists => ExpectedStreamRevision::StreamExists,
        ExpectedVersion::NoStream => ExpectedStreamRevision::NoStream,
        ExpectedVersion::Exact(revision) => ExpectedStreamRevision::Revision(revision),
    }
}

/// Writes an expected version as the protocol does.
pub fn convert_expected_version(version: ExpectedVersion) -> (r: ExpectedStreamRevision)
    ensures
        r == stream_revision(version),
{
    match version {
        ExpectedVersion::Any => ExpectedStreamRevision::Any,
        ExpectedVersion::StreamExists => ExpectedStreamRevision::StreamExists,
        ExpectedVersion::NoStream => ExpectedStreamRevision::NoStream,
        ExpectedVersion::Exact(revision) => ExpectedStreamRevision::Revision(revision),
    }
}

/// Whether `src` holds a text that denotes `id`.
pub open spec fn uuid_denotes(src: Uuid, id: Seq<u8>) -> bool {
    src.value matches Some(UuidValue::String(text)) && denotes(text@, id)
}

/// What keeps `src` from being read as an identifier.
pub open spec fn uuid_fault(src: Uuid) -> Option<ReplyFault> {
    match src.value {
        None => Some(ReplyFault::MissingIdValue),
        Some(UuidValue::Structured(_)) => Some(ReplyFault::StructuredId),
        Some(UuidValue::String(text)) => if is_id_text(text@) {
            None
        } else {
            Some(ReplyFault::MalformedId)
        },
    }
}

/// The identifier that `src` holds.
///
/// Requests ask the server to write identifiers as text, and only text is read.
pub fn raw_uuid_to_uuid(src: Uuid) -> (r: EventId)
    requires
        uuid_fault(src) is None,
    ensures
        uuid_denotes(src, r@),
{
    match src.value {
        Some(UuidValue::String(text)) => match EventId::parse(text.as_str()) {
            Some(id) => id,
            None => vstd::pervasive::unreached(),
        },
        _ => vstd::pervasive::unreached(),
    }
}

/// How the protocol writes a truth value in metadata.
pub open spec fn flag_text(flag: bool) -> Seq<char> {
    if flag {
        "true"@
    } else {
        "false"@
    }
}

/// The metadata of an event to be written: its type, and whether it is JSON.
pub open spec fn proposed_metadata(event_type: Seq<char>, is_json: bool) -> Map<
    Seq<char>,
    Seq<char>,
> {
    Map::<Seq<char>, Seq<char>>::empty().insert("type"@, event_type).insert(
        "is-json"@,
        flag_text(is_json),
    )
}

/// Whether `message` asks for `event` to be written under the identifier `id`.
pub open spec fn message_proposes(message: ProposedMessage, event: EventData, id: Seq<u8>) -> bool {
    &&& message.id matches Some(uuid) && uuid.value matches Some(UuidValue::String(text)) && text@
        == hyphenated_text(id)
    &&& message.metadata@ == proposed_metadata(event.event_type@, event.payload is Json)
    &&& message.custom_metadata@ == event.custom_bytes()
    &&& message.data@ == event.payload.bytes()
}

/// Whether `req` asks for `event` to be written under the identifier `id`.
pub open spec fn proposes(req: AppendReq, event: EventData, id: Seq<u8>) -> bool {
    req.content matches Some(Content::ProposedMessage(message)) && message_proposes(
        message,
        event,
        id,
    )
}

/// The message that writes `event` under the identifier `id`.
pub fn propose_event(event: EventData, id: EventId) -> (r: AppendReq)
    ensures
        proposes(r, event, id@),
{
    let is_json = event.payload.is_json();
    let mut metadata = Metadata::new();
    let custom_metadata = match event.custom_metadata {
        Some(payload) => payload.into_inner(),
        None => Vec::new(),
    };
    metadata.insert("type".to_owned(), event.event_type);
    metadata.insert(
        "is-json".to_owned(),
        if is_json {
            "true".to_owned()
        } else {
            "false".to_owned()
        },
    );
    let message = ProposedMessage {
        id: Some(Uuid { value: Some(UuidValue::String(id.to_text())) }),
        metadata,
        custom_metadata,
        data: event.payload.into_inner(),
    };
    AppendReq { content: Some(Content::ProposedMessage(message)) }
}

/// Whether `id` is the identifier that `event` is written under: its own, or a
/// random one where it has none.
pub open spec fn id_serves(event: EventData, id: Seq<u8>) -> bool {
    match event.id_opt {
        Some(own) => id == own@,
        None => is_random_id(id),
    }
}

/// The message that writes `event`, under its own identifier, or a random one
/// where it has none.
pub fn convert_event_data(event: EventData) -> (r: AppendReq)
    ensures
        exists|id: EventId| id_serves(event, id@) && #[trigger] proposes(r, event, id@),
{
    let id = match event.id_opt {
        Some(id) => id,
        None => EventId::new_random(),
    };
    let req = propose_event(event, id);
    assert(id_serves(event, id@) && proposes(req, event, id@));
    req
}

/// The type of an event, by its metadata.
pub open spec fn event_type_of(metadata: Map<Seq<char>, Seq<char>>) -> Seq<char> {
    if metadata.contains_key("type"@) {
        metadata["type"@]
    } else {
        "<no-event-type-provided>"@
    }
}

/// Whether an event is JSON, by its metadata; `None` where the metadata says
/// neither.
pub open spec fn json_flag_of(metadata: Map<Seq<char>, Seq<char>>) -> Option<bool> {
    if !metadata.contains_key("is-json"@) {
        Some(false)
    } else if metadata["is-json"@] == flag_text(true) {
        Some(true)
    } else if metadata["is-json"@] == flag_text(false) {
        Some(false)
    } else {
        None
    }
}

/// What keeps `event` from being read.
pub open spec fn recorded_fault(event: read::RecordedEvent) -> Option<ReplyFault> {
    match event.id {
        None => Some(ReplyFault::MissingId),
        Some(id) => if uuid_fault(id) is Some {
            uuid_fault(id)
        } else if json_flag_of(event.metadata@) is None {
            Some(ReplyFault::UnknownJsonFlag)
        } else {
            None
        },
    }
}

/// Whether `value` is what the message `event` says.
pub open spec fn recorded_as(event: read::RecordedEvent, value: RecordedEvent) -> bool {
    &&& event.id matches Some(id) && uuid_denotes(id, value.id@)
    &&& value.stream_id@ == event.stream_name@
    &&& value.revision == event.stream_revision
    &&& value.position.commit == event.commit_position
    &&& value.position.prepare == event.prepare_position
    &&& value.event_type@ == event_type_of(event.metadata@)
    &&& json_flag_of(event.metadata@) == Some(value.is_json)
    &&& value.metadata@ == event.custom_metadata@
    &&& value.data@ == event.data@
}

/// The truth value that `text` stands for, if it stands for one.
fn read_flag(text: &String) -> (r: Option<bool>)
    ensures
        r == (if text@ == flag_text(true) {
            Some(true)
        } else if text@ == flag_text(false) {
            Some(false)
        } else {
            None
        }),
{
    if *text == "true".to_owned() {
        Some(true)
    } else if *text == "false".to_owned() {
        Some(false)
    } else {
        None
    }
}

/// Whether `src` can be read as an identifier.
fn check_uuid(src: &Uuid) -> (r: Result<(), ReplyFault>)
    ensures
        match r {
            Ok(_) => uuid_fault(*src) is None,
            Err(fault) => uuid_fault(*src) == Some(fault),
        },
{
    match &src.value {
        None => Err(ReplyFault::MissingIdValue),
        Some(UuidValue::Structured(_)) => Err(ReplyFault::StructuredId),
        Some(UuidValue::String(text)) => match EventId::parse(text.as_str()) {
            Some(_) => Ok(()),
            None => Err(ReplyFault::MalformedId),
        },
    }
}

/// Whether `event` can be read by `convert_proto_recorded_event`, or what is
/// wrong with it.
pub fn check_recorded_event(event: &read::RecordedEvent) -> (r: Result<(), ReplyFault>)
    ensures
        match r {
            Ok(_) => recorded_fault(*event) is None,
            Err(fault) => recorded_fault(*event) == Some(fault),
        },
{
    match &event.id {
        None => return Err(ReplyFault::MissingId),
        Some(id) => match check_uuid(id) {
            Ok(_) => {},
            Err(fault) => return Err(fault),
        },
    }
    match event.metadata.get("is-json") {
        None => Ok(()),
        Some(text) => match read_flag(text) {
            Some(_) => Ok(()),
            None => Err(ReplyFault::UnknownJsonFlag),
        },
    }
}

/// The two metadata keys of an event are not the same.
pub proof fn lemma_keys_differ()
    ensures
        "type"@ != "is-json"@,
{
    reveal_strlit("type");
    reveal_strlit("is-json");
    assert("type"@.len() != "is-json"@.len());
}

/// The event that a message of the server holds.
pub fn convert_proto_recorded_event(event: read::RecordedEvent) -> (r: RecordedEvent)
    requires
        recorded_fault(event) is None,
    ensures
        recorded_as(event, r),
{
    let mut metadata = event.metadata;
    let id = match event.id {
        Some(id) => raw_uuid_to_uuid(id),
        None => vstd::pervasive::unreached(),
    };
    let position = Position { commit: event.commit_position, prepare: event.prepare_position };
    let event_type = match metadata.remove("type") {
        Some(event_type) => event_type,
        None => "<no-event-type-provided>".to_owned(),
    };
    proof {
        lemma_keys_differ();
    }
    let is_json = match metadata.remove("is-json") {
        Some(text) => match read_flag(&text) {
            Some(flag) => flag,
            None => vstd::pervasive::unreached(),
        },
        None => false,
    };
    RecordedEvent {
        id,
        stream_id: event.stream_name,
        revision: event.stream_revision,
        position,
        event_type,
        is_json,
        metadata: event.custom_metadata,
        data: event.data,
    }
}

/// What keeps a link or an event that may be missing from being read.
pub open spec fn optional_fault(event: Option<read::RecordedEvent>) -> Option<ReplyFault> {
    match event {
        Some(event) => recorded_fault(event),
        None => None,
    }
}

/// What keeps `event` from being read.
pub open spec fn read_event_fault(event: read::ReadEvent) -> Option<ReplyFault> {
    if optional_fault(event.event) is Some {
        optional_fault(event.event)
    } else {
        optional_fault(event.link)
    }
}

/// Whether `value` is there exactly where the message `event` is, and says the same.
pub open spec fn optional_recorded_as(
    event: Option<read::RecordedEvent>,
    value: Option<RecordedEvent>,
) -> bool {
    match (event, value) {
        (Some(event), Some(value)) => recorded_as(event, value),
        (None, None) => true,
        _ => false,
    }
}

/// Whether `value` is what the message `event` says.
pub open spec fn read_as(event: read::ReadEvent, value: ResolvedEvent) -> bool {
    &&& optional_recorded_as(event.event, value.event)
    &&& optional_recorded_as(event.link, value.link)
    &&& value.commit_position == match event.position {
        Some(read::CommitPosition::CommitPosition(position)) => Some(position),
        Some(read::CommitPosition::NoPosition) => None,
        None => None,
    }
}

/// Whether `event` can be read, where it is there.
fn check_optional(event: &Option<read::RecordedEvent>) -> (r: Result<(), ReplyFault>)
    ensures
        match r {
            Ok(_) => optional_fault(*event) is None,
            Err(fault) => optional_fault(*event) == Some(fault),
        },
{
    match event {
        Some(event) => check_recorded_event(event),
        None => Ok(()),
    }
}

/// Whether `event` can be read by `convert_proto_read_event`, or what is wrong
/// with it.
pub fn check_read_event(event: &read::ReadEvent) -> (r: Result<(), ReplyFault>)
    ensures
        match r {
            Ok(_) => read_event_fault(*event) is None,
            Err(fault) => read_event_fault(*event) == Some(fault),
        },
{
    match check_optional(&event.event) {
        Ok(_) => check_optional(&event.link),
        Err(fault) => Err(fault),
    }
}

/// The event that one message of a read holds.
pub fn convert_proto_read_event(event: read::ReadEvent) -> (r: ResolvedEvent)
    requires
        read_event_fault(event) is None,
    ensures
        read_as(event, r),
{
    let commit_position = match event.position {
        Some(read::CommitPosition::CommitPosition(position)) => Some(position),
        Some(read::CommitPosition::NoPosition) => None,
        None => None,
    };
    let recorded = match event.event {
        Some(event) => Some(convert_proto_recorded_event(event)),
        None => None,
    };
    let link = match event.link {
        Some(link) => Some(convert_proto_recorded_event(link)),
        None => None,
    };
    ResolvedEvent { event: recorded, link, commit_position }
}

/// What keeps the reply `resp` of a read from being read.
pub open spec fn read_resp_fault(resp: read::ReadResp) -> Option<ReplyFault> {
    match resp.event {
        Some(event) => read_event_fault(event),
        None => Some(ReplyFault::MissingEvent),
    }
}

/// Whether `resp` can be read by `convert_read_resp`, or what is wrong with it.
pub fn check_read_resp(resp: &read::ReadResp) -> (r: Result<(), ReplyFault>)
    ensures
        match r {
            Ok(_) => read_resp_fault(*resp) is None,
            Err(fault) => read_resp_fault(*resp) == Some(fault),
        },
{
    match &resp.event {
        Some(event) => check_read_event(event),
        None => Err(ReplyFault::MissingEvent),
    }
}

/// The event that one message of the reply to a read or a subscription holds.
pub fn convert_read_resp(resp: read::ReadResp) -> (r: ResolvedEvent)
    requires
        read_resp_fault(resp) is None,
    ensures
        resp.event matches Some(event) && read_as(event, r),
{
    match resp.event {
        Some(event) => convert_proto_read_event(event),
        None => vstd::pervasive::unreached(),
    }
}

/// The place in the transaction log that a reply names, if it names one.
pub open spec fn log_position(option: Option<PositionOption>) -> Option<Position> {
    match option {
        Some(PositionOption::Position(position)) => Some(
            Position { commit: position.commit_position, prepare: position.prepare_position },
        ),
        Some(PositionOption::Empty) => None,
        None => None,
    }
}

/// The place in the transaction log that a reply names, if it names one.
pub fn convert_position_option(option: Option<PositionOption>) -> (r: Option<Position>)
    ensures
        r == log_position(option),
{
    match option {
        Some(PositionOption::Position(position)) => Some(
            Position { commit: position.commit_position, prepare: position.prepare_position },
        ),
        Some(PositionOption::Empty) => None,
        None => None,
    }
}

/// What keeps the reply `resp` to a write from being read.
pub open spec fn append_resp_fault(resp: AppendResp) -> Option<ReplyFault> {
    if resp.current_revision_option is None {
        Some(ReplyFault::MissingRevision)
    } else if resp.position_option is None {
        Some(ReplyFault::MissingPosition)
    } else {
        None
    }
}

/// What the reply `resp` says of a write: the revision that the stream is at, 0
/// where there is no stream, and the place of the write, the start of the log
/// where the reply names none.
pub open spec fn write_result(resp: AppendResp) -> WriteResult {
    WriteResult {
        next_expected_version: match resp.current_revision_option {
            Some(CurrentRevisionOption::CurrentRevision(revision)) => revision,
            _ => 0,
        },
        position: match log_position(resp.position_option) {
            Some(position) => position,
            None => Position::at_start(),
        },
    }
}

/// Whether `resp` can be read by `convert_append_resp`, or what is wrong with it.
pub fn check_append_resp(resp: &AppendResp) -> (r: Result<(), ReplyFault>)
    ensures
        match r {
            Ok(_) => append_resp_fault(*resp) is None,
            Err(fault) => append_resp_fault(*resp) == Some(fault),
        },
{
    if resp.current_revision_option.is_none() {
        Err(ReplyFault::MissingRevision)
    } else if resp.position_option.is_none() {
        Err(ReplyFault::MissingPosition)
    } else {
        Ok(())
    }
}

/// What the reply to a write says of it.
pub fn convert_append_resp(resp: AppendResp) -> (r: WriteResult)
    requires
        append_resp_fault(resp) is None,
    ensures
        r == write_result(resp),
{
    let next_expected_version: u64 = match resp.current_revision_option {
        Some(CurrentRevisionOption::CurrentRevision(revision)) => revision,
        _ => 0,
    };
    let position = match convert_position_option(resp.position_option) {
        Some(position) => position,
        None => Position::start(),
    };
    WriteResult { next_expected_version, position }
}

/// The signed 64-bit number with the low 64 bits of `n`, in two's complement.
pub open spec fn low_signed_64(n: nat) -> i64 {
    let low = n as int % 0x1_0000_0000_0000_0000;
    if low < 0x8000_0000_0000_0000 {
        low as i64
    } else {
        (low - 0x1_0000_0000_0000_0000) as i64
    }
}

/// How the protocol writes a span of time: its whole milliseconds, cut to 64 bits.
pub open spec fn protocol_millis(span: Duration) -> i64 {
    low_signed_64(span@ / 1_000_000)
}

/// How the protocol numbers the consumer strategies.
pub open spec fn strategy_number(strategy: SystemConsumerStrategy) -> i32 {
    match strategy {
        SystemConsumerStrategy::DispatchToSingle => 0,
        SystemConsumerStrategy::RoundRobin => 1,
        SystemConsumerStrategy::Pinned => 2,
    }
}

/// Writes a span of time as the protocol does.
fn convert_millis(span: Duration) -> (r: i64)
    ensures
        r == protocol_millis(span),
{
    let millis: u128 = span.as_millis();
    proof {
        lemma_low_signed_64(millis);
    }
    #[verifier::truncate]
    (millis as i64)
}

/// Casting to a signed 64-bit number keeps the low 64 bits.
proof fn lemma_low_signed_64(n: u128)
    ensures
        (n as i64) == low_signed_64(n as nat),
{
    assert((n as i64) == (if n % 0x1_0000_0000_0000_0000u128 < 0x8000_0000_0000_0000u128 {
        (n % 0x1_0000_0000_0000_0000u128) as int
    } else {
        (n % 0x1_0000_0000_0000_0000u128) - 0x1_0000_0000_0000_0000u128
    })) by (bit_vector);
}

/// Numbers a consumer strategy as the protocol does.
fn convert_strategy(strategy: SystemConsumerStrategy) -> (r: i32)
    ensures
        r == strategy_number(strategy),
{
    match strategy {
        SystemConsumerStrategy::DispatchToSingle => 0,
        SystemConsumerStrategy::RoundRobin => 1,
        SystemConsumerStrategy::Pinned => 2,
    }
}

/// How the creation of a subscription writes its settings.
pub open spec fn create_settings(settings: PersistentSubscriptionSettings) -> create::Settings {
    create::Settings {
        resolve_links: settings.resolve_links,
        revision: settings.revision,
        extra_statistics: settings.extra_stats,
        message_timeout: protocol_millis(settings.message_timeout),
        max_retry_count: settings.max_retry_count,
        checkpoint_after: protocol_millis(settings.checkpoint_after),
        min_checkpoint_count: settings.min_checkpoint_count,
        max_checkpoint_count: settings.max_checkpoint_count,
        max_subscriber_count: settings.max_subscriber_count,
        live_buffer_size: settings.live_buffer_size,
        read_batch_size: settings.read_batch_size,
        history_buffer_size: settings.history_buffer_size,
        named_consumer_strategy: strategy_number(settings.named_consumer_strategy),
    }
}

/// How an update of a subscription writes its settings.
pub open spec fn update_settings(settings: PersistentSubscriptionSettings) -> update::Settings {
    update::Settings {
        resolve_links: settings.resolve_links,
        revision: settings.revision,
        extra_statistics: settings.extra_stats,
        message_timeout: protocol_millis(settings.message_timeout),
        max_retry_count: settings.max_retry_count,
        checkpoint_after: protocol_millis(settings.checkpoint_after),
        min_checkpoint_count: settings.min_checkpoint_count,
        max_checkpoint_count: settings.max_checkpoint_count,
        max_subscriber_count: settings.max_subscriber_count,
        live_buffer_size: settings.live_buffer_size,
        read_batch_size: settings.read_batch_size,
        history_buffer_size: settings.history_buffer_size,
        named_consumer_strategy: strategy_number(settings.named_consumer_strategy),
    }
}

/// Writes settings as the creation of a subscription does.
pub fn convert_settings_create(settings: PersistentSubscriptionSettings) -> (r: create::Settings)
    ensures
        r == create_settings(settings),
{
    create::Settings {
        resolve_links: settings.resolve_links,
        revision: settings.revision,
        extra_statistics: settings.extra_stats,
        message_timeout: convert_millis(settings.message_timeout),
        max_retry_count: settings.max_retry_count,
        checkpoint_after: convert_millis(settings.checkpoint_after),
        min_checkpoint_count: settings.min_checkpoint_count,
        max_checkpoint_count: settings.max_checkpoint_count,
        max_subscriber_count: settings.max_subscriber_count,
        live_buffer_size: settings.live_buffer_size,
        read_batch_size: settings.read_batch_size,
        history_buffer_size: settings.history_buffer_size,
        named_consumer_strategy: convert_strategy(settings.named_consumer_strategy),
    }
}

/// Writes settings as an update of a subscription does.
pub fn convert_settings_update(settings: PersistentSubscriptionSettings) -> (r: update::Settings)
    ensures
        r == update_settings(settings),
{
    update::Settings {
        resolve_links: settings.resolve_links,
        revision: settings.revision,
        extra_statistics: settings.extra_stats,
        message_timeout: convert_millis(settings.message_timeout),
        max_retry_count: settings.max_retry_count,
        checkpoint_after: convert_millis(settings.checkpoint_after),
        min_checkpoint_count: settings.min_checkpoint_count,
        max_checkpoint_count: settings.max_checkpoint_count,
        max_subscriber_count: settings.max_subscriber_count,
        live_buffer_size: settings.live_buffer_size,
        read_batch_size: settings.read_batch_size,
        history_buffer_size: settings.history_buffer_size,
        named_consumer_strategy: convert_strategy(settings.named_consumer_strategy),
    }
}

} // verus!
