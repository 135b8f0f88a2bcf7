//! What is made of the replies of the server, said of the calls themselves: every
//! field of a value, in terms of the message that it was read from.
use vstd::prelude::*;

use crate::es6::call::Call;
use crate::es6::commands::catchup::{
    answers, AllCatchupSubscribe, ErrorStatus, RegularCatchupSubscribe, SubscriptionSignal,
    SubscriptionStep,
};
use crate::es6::commands::convert::{
    check_append_resp, check_read_event, check_read_resp, check_recorded_event,
    convert_append_resp, convert_event_data, convert_position_option, convert_proto_read_event,
    convert_proto_recorded_event, convert_read_resp, id_serves, proposes, raw_uuid_to_uuid,
    read_as, read_event_fault, recorded_as, recorded_fault, uuid_fault,
};
use crate::es6::commands::delete::{convert_delete_resp, convert_tombstone_resp};
use crate::es6::fault::ReplyFault;
use crate::es6::laws::law_written_event_reads_back;
use crate::es6::request_laws::{holds_bytes, opens_log, opens_stream};
use crate::es6::streams::append::{AppendReq, AppendResp, Content, CurrentRevisionOption};
use crate::es6::streams::delete::{DeleteResp, TombstoneResp};
use crate::es6::streams::read::{CommitPosition, ReadEvent, ReadReq, ReadResp};
use crate::es6::streams::{read, PositionOption, Uuid, UuidValue};
use crate::es6::types::{EventData, Position, RecordedEvent, ResolvedEvent, WriteResult};
use crate::ids::EventId;
use crate::value_laws::{lemma_denoted_is_shown, lemma_id_text_is_shown, shows};

verus! {

/// Whether `src` holds a text that shows some bytes.
pub open spec fn holds_id(src: Uuid) -> bool {
    src.value matches Some(UuidValue::String(text)) && exists|bytes: Seq<u8>|
        #[trigger] shows(text@, bytes)
}

/// Whether metadata that speak of JSON say either that it is or that it is not.
pub open spec fn is_plain_on_json(metadata: Map<Seq<char>, Seq<char>>) -> bool {
    metadata.contains_key("is-json"@) ==> metadata["is-json"@] == "true"@ || metadata["is-json"@]
        == "false"@
}

/// Whether `message` can be read.
pub open spec fn is_readable(message: read::RecordedEvent) -> bool {
    &&& message.id matches Some(id) && holds_id(id)
    &&& is_plain_on_json(message.metadata@)
}

/// Whether what there is of an event and its link can be read.
pub open spec fn is_readable_event(message: ReadEvent) -> bool {
    &&& message.event matches Some(event) ==> is_readable(event)
    &&& message.link matches Some(link) ==> is_readable(link)
}

/// Whether a reply holds an event that can be read.
pub open spec fn is_readable_resp(resp: ReadResp) -> bool {
    resp.event matches Some(event) && is_readable_event(event)
}

/// Whether `fault` is the first thing that is wrong with `message`.
pub open spec fn is_wrong(message: read::RecordedEvent, fault: ReplyFault) -> bool {
    match fault {
        ReplyFault::MissingId => message.id is None,
        ReplyFault::MissingIdValue => message.id matches Some(id) && id.value is None,
        ReplyFault::StructuredId => message.id matches Some(id) && id.value matches Some(
            UuidValue::Structured(_),
        ),
        ReplyFault::MalformedId => message.id matches Some(id) && id.value matches Some(
            UuidValue::String(_),
        ) && !holds_id(id),
        ReplyFault::UnknownJsonFlag => message.id matches Some(id) && holds_id(id)
            && !is_plain_on_json(message.metadata@),
        _ => false,
    }
}

/// Whether `fault` is the first thing that is wrong with an event and its link.
pub open spec fn is_wrong_event(message: ReadEvent, fault: ReplyFault) -> bool {
    ||| message.event matches Some(event) && is_wrong(event, fault)
    ||| {
        &&& message.event matches Some(event) ==> is_readable(event)
        &&& message.link matches Some(link) && is_wrong(link, fault)
    }
}

/// Whether `value` has, field by field, what `message` says.
pub open spec fn says(message: read::RecordedEvent, value: RecordedEvent) -> bool {
    &&& message.id matches Some(id) && id.value matches Some(UuidValue::String(text)) && shows(
        text@,
        value.id.bytes@,
    )
    &&& value.stream_id@ == message.stream_name@
    &&& value.revision == message.stream_revision
    &&& value.position.commit == message.commit_position
    &&& value.position.prepare == message.prepare_position
    &&& message.metadata@.contains_key("type"@) ==> value.event_type@
        == message.metadata@["type"@]
    &&& !message.metadata@.contains_key("type"@) ==> value.event_type@
        == "<no-event-type-provided>"@
    &&& value.is_json <==> message.metadata@.contains_key("is-json"@)
        && message.metadata@["is-json"@] == "true"@
    &&& value.metadata@ == message.custom_metadata@
    &&& value.data@ == message.data@
}

/// Whether `value` has an event where `message` has one, a link where `message`
/// has one, each as it stands there, and the place that `message` names.
pub open spec fn says_event(message: ReadEvent, value: ResolvedEvent) -> bool {
    &&& value.event is Some <==> message.event is Some
    &&& message.event matches Some(event) ==> says(event, value.event->0)
    &&& value.link is Some <==> message.link is Some
    &&& message.link matches Some(link) ==> says(link, value.link->0)
    &&& match message.position {
        Some(CommitPosition::CommitPosition(position)) => value.commit_position == Some(position),
        Some(CommitPosition::NoPosition) => value.commit_position is None,
        None => value.commit_position is None,
    }
}

proof fn lemma_flags_differ()
    ensures
        "true"@ != "false"@,
{
    reveal_strlit("true");
    reveal_strlit("false");
    assert("true"@.len() != "false"@.len());
}

proof fn lemma_id_faults(src: Uuid)
    ensures
        uuid_fault(src) is None <==> holds_id(src),
{
    if let Some(UuidValue::String(text)) = src.value {
        lemma_id_text_is_shown(text@);
    }
}

proof fn lemma_faults(message: read::RecordedEvent)
    ensures
        recorded_fault(message) is None <==> is_readable(message),
        recorded_fault(message) matches Some(fault) ==> is_wrong(message, fault),
{
    lemma_flags_differ();
    if let Some(id) = message.id {
        lemma_id_faults(id);
    }
}

proof fn lemma_event_faults(message: ReadEvent)
    ensures
        read_event_fault(message) is None <==> is_readable_event(message),
        read_event_fault(message) matches Some(fault) ==> is_wrong_event(message, fault),
{
    if let Some(event) = message.event {
        lemma_faults(event);
    }
    if let Some(link) = message.link {
        lemma_faults(link);
    }
}

proof fn lemma_says(message: read::RecordedEvent, value: RecordedEvent)
    ensures
        recorded_as(message, value) ==> says(message, value),
{
    lemma_flags_differ();
    if recorded_as(message, value) {
        lemma_denoted_is_shown(message.id->0.value->0->String_0@, value.id@);
    }
}

proof fn lemma_says_event(message: ReadEvent, value: ResolvedEvent)
    ensures
        read_as(message, value) ==> says_event(message, value),
{
    if let Some(event) = message.event {
        lemma_says(event, value.event->0);
    }
    if let Some(link) = message.link {
        lemma_says(link, value.link->0);
    }
}

/// An identifier is read wherever there is one, and shows in its text.
pub proof fn law_id_is_read(src: Uuid, r: EventId)
    ensures
        holds_id(src) ==> call_requires(raw_uuid_to_uuid, (src,)),
        call_ensures(raw_uuid_to_uuid, (src,), r) ==> {
            &&& src.value matches Some(UuidValue::String(text))
            &&& shows(text@, r.bytes@)
        },
{
    lemma_id_faults(src);
    if call_ensures(raw_uuid_to_uuid, (src,), r) {
        lemma_denoted_is_shown(src.value->0->String_0@, r@);
    }
}

/// A message that can be read is read as it stands, field by field.
pub proof fn law_recorded_event_is_read(message: read::RecordedEvent, r: RecordedEvent)
    ensures
        is_readable(message) ==> call_requires(convert_proto_recorded_event, (message,)),
        call_ensures(convert_proto_recorded_event, (message,), r) ==> says(message, r),
{
    lemma_faults(message);
    lemma_says(message, r);
}

/// A message passes exactly if it can be read, and otherwise the first thing that
/// is wrong with it is named.
pub proof fn law_recorded_event_is_checked(
    message: read::RecordedEvent,
    r: Result<(), ReplyFault>,
)
    ensures
        call_requires(check_recorded_event, (&message,)),
        call_ensures(check_recorded_event, (&message,), r) ==> match r {
            Ok(_) => is_readable(message),
            Err(fault) => is_wrong(message, fault),
        },
{
    lemma_faults(message);
}

/// An event and its link are read each from its own message, and the place from
/// its own field.
pub proof fn law_read_event_is_read(message: ReadEvent, r: ResolvedEvent)
    ensures
        is_readable_event(message) ==> call_requires(convert_proto_read_event, (message,)),
        call_ensures(convert_proto_read_event, (message,), r) ==> says_event(message, r),
{
    lemma_event_faults(message);
    lemma_says_event(message, r);
}

/// An event and its link pass exactly if both can be read; the event comes first.
pub proof fn law_read_event_is_checked(message: ReadEvent, r: Result<(), ReplyFault>)
    ensures
        call_requires(check_read_event, (&message,)),
        call_ensures(check_read_event, (&message,), r) ==> match r {
            Ok(_) => is_readable_event(message),
            Err(fault) => is_wrong_event(message, fault),
        },
{
    lemma_event_faults(message);
}

/// A reply with an event that can be read gives that event.
pub proof fn law_read_resp_is_read(resp: ReadResp, r: ResolvedEvent)
    ensures
        is_readable_resp(resp) ==> call_requires(convert_read_resp, (resp,)),
        call_ensures(convert_read_resp, (resp,), r) ==> {
            &&& resp.event matches Some(event)
            &&& says_event(event, r)
        },
{
    if let Some(event) = resp.event {
        lemma_event_faults(event);
        lemma_says_event(event, r);
    }
}

/// A reply passes exactly if it holds an event, and that can be read.
pub proof fn law_read_resp_is_checked(resp: ReadResp, r: Result<(), ReplyFault>)
    ensures
        call_requires(check_read_resp, (&resp,)),
        call_ensures(check_read_resp, (&resp,), r) ==> match r {
            Ok(_) => is_readable_resp(resp),
            Err(fault) => match resp.event {
                Some(event) => is_wrong_event(event, fault),
                None => fault == ReplyFault::MissingEvent,
            },
        },
{
    if let Some(event) = resp.event {
        lemma_event_faults(event);
    }
}

/// What passes the check can be read: the calls can follow each other.
pub proof fn law_what_passes_is_read(
    message: read::RecordedEvent,
    event: ReadEvent,
    resp: ReadResp,
    reply: AppendResp,
)
    ensures
        call_ensures(check_recorded_event, (&message,), Ok(())) ==> call_requires(
            convert_proto_recorded_event,
            (message,),
        ),
        call_ensures(check_read_event, (&event,), Ok(())) ==> call_requires(
            convert_proto_read_event,
            (event,),
        ),
        call_ensures(check_read_resp, (&resp,), Ok(())) ==> call_requires(
            convert_read_resp,
            (resp,),
        ),
        call_ensures(check_append_resp, (&reply,), Ok(())) ==> call_requires(
            convert_append_resp,
            (reply,),
        ),
{
}

/// Whether `r` is the place that `option` names, if it names one.
pub open spec fn names_place(option: Option<PositionOption>, r: Option<Position>) -> bool {
    match option {
        Some(PositionOption::Position(place)) => r matches Some(position) && position.commit
            == place.commit_position && position.prepare == place.prepare_position,
        Some(PositionOption::Empty) => r is None,
        None => r is None,
    }
}

/// The place that a reply names is read as it stands, in the reply to either kind
/// of deletion too.
pub proof fn law_places_are_read(
    option: Option<PositionOption>,
    soft: DeleteResp,
    hard: TombstoneResp,
    r: Option<Position>,
)
    ensures
        call_requires(convert_position_option, (option,)),
        call_ensures(convert_position_option, (option,), r) ==> names_place(option, r),
        call_requires(convert_delete_resp, (soft,)),
        call_ensures(convert_delete_resp, (soft,), r) ==> names_place(soft.position_option, r),
        call_requires(convert_tombstone_resp, (hard,)),
        call_ensures(convert_tombstone_resp, (hard,), r) ==> names_place(hard.position_option, r),
{
}

/// The reply to a write can be read if it speaks of both the revision and the
/// place, and is read as it stands: no stream is at revision 0, and no place is the
/// start of the log.
pub proof fn law_append_resp_is_read(resp: AppendResp, r: WriteResult)
    ensures
        resp.current_revision_option is Some && resp.position_option is Some ==> call_requires(
            convert_append_resp,
            (resp,),
        ),
        call_ensures(convert_append_resp, (resp,), r) ==> {
            &&& resp.current_revision_option matches Some(
                CurrentRevisionOption::CurrentRevision(revision),
            ) ==> r.next_expected_version == revision
            &&& resp.current_revision_option matches Some(CurrentRevisionOption::NoStream)
                ==> r.next_expected_version == 0
            &&& resp.position_option matches Some(PositionOption::Position(place)) ==> {
                &&& r.position.commit == place.commit_position
                &&& r.position.prepare == place.prepare_position
            }
            &&& resp.position_option matches Some(PositionOption::Empty) ==> {
                &&& r.position.commit == 0
                &&& r.position.prepare == 0
            }
        },
{
}

/// The reply to a write passes exactly if it speaks of both the revision and the
/// place; the revision comes first.
pub proof fn law_append_resp_is_checked(resp: AppendResp, r: Result<(), ReplyFault>)
    ensures
        call_requires(check_append_resp, (&resp,)),
        call_ensures(check_append_resp, (&resp,), r) ==> match r {
            Ok(_) => resp.current_revision_option is Some && resp.position_option is Some,
            Err(ReplyFault::MissingRevision) => resp.current_revision_option is None,
            Err(ReplyFault::MissingPosition) => resp.current_revision_option is Some
                && resp.position_option is None,
            Err(_) => false,
        },
{
}

/// A subscription goes on after an event and after it was opened anew, and after
/// nothing else.
pub proof fn law_only_failure_and_end_are_last(step: SubscriptionStep, r: bool)
    ensures
        call_requires(SubscriptionStep::goes_on, (&step,)),
        call_ensures(SubscriptionStep::goes_on, (&step,), r) ==> match step {
            SubscriptionStep::Deliver(_) => r,
            SubscriptionStep::Reopen(_) => r,
            SubscriptionStep::Fail(_) => !r,
            SubscriptionStep::End => !r,
        },
{
}

/// An event that a subscription hands out is the one that came, field by field:
/// the event from the event, the link from the link, and the place from the place.
pub proof fn law_answers_are_as_they_came(
    opening: Call<ReadReq>,
    resp: ReadResp,
    step: SubscriptionStep,
)
    requires
        answers(opening, SubscriptionSignal::Received(resp), step),
    ensures
        resp.event is Some,
        step is Deliver,
        ({
            let message = resp.event->0;
            let value = step->Deliver_0;
            &&& value.event is Some <==> message.event is Some
            &&& message.event matches Some(event) ==> says(event, value.event->0)
            &&& value.link is Some <==> message.link is Some
            &&& message.link matches Some(link) ==> says(link, value.link->0)
            &&& match message.position {
                Some(CommitPosition::CommitPosition(position)) => value.commit_position == Some(
                    position,
                ),
                Some(CommitPosition::NoPosition) => value.commit_position is None,
                None => value.commit_position is None,
            }
        }),
{
    lemma_says_event(resp.event->0, step->Deliver_0);
}

/// Whether `step` hands out what `resp` holds.
pub open spec fn hands_out(resp: ReadResp, step: SubscriptionStep) -> bool {
    &&& step matches SubscriptionStep::Deliver(value)
    &&& resp.event matches Some(event)
    &&& says_event(event, value)
}

/// Whether an open subscription may be told of `signal`: a message has to be one
/// that can be read.
pub open spec fn may_be_told(signal: SubscriptionSignal) -> bool {
    signal matches SubscriptionSignal::Received(resp) ==> is_readable_resp(resp)
}

/// A subscription to a stream hands out each event as it came, is opened anew from
/// its own starting point when the connection is lost, hands out any other error,
/// and ends with the messages.
pub proof fn law_stream_subscription_steps(
    c: RegularCatchupSubscribe,
    signal: SubscriptionSignal,
    r: SubscriptionStep,
)
    ensures
        may_be_told(signal) ==> call_requires(RegularCatchupSubscribe::step, (&c, signal)),
        call_ensures(RegularCatchupSubscribe::step, (&c, signal), r) ==> match signal {
            SubscriptionSignal::Received(resp) => hands_out(resp, r),
            SubscriptionSignal::Failed(error) | SubscriptionSignal::Refused(error) => if error
                .from_connection {
                r matches SubscriptionStep::Reopen(opening) && opens_stream(c, opening)
            } else {
                r matches SubscriptionStep::Fail(code) && code == error.code
            },
            SubscriptionSignal::Ended => r is End,
        },
{
    if let SubscriptionSignal::Received(resp) = signal {
        if let Some(event) = resp.event {
            lemma_event_faults(event);
            lemma_says_event(event, r->Deliver_0);
        }
    }
}

/// A subscription to the transaction log hands out each event as it came, is
/// opened anew from its own starting point when the connection is lost, hands out
/// any other error, and ends with the messages.
pub proof fn law_log_subscription_steps(
    c: AllCatchupSubscribe,
    signal: SubscriptionSignal,
    r: SubscriptionStep,
)
    ensures
        may_be_told(signal) ==> call_requires(AllCatchupSubscribe::step, (&c, signal)),
        call_ensures(AllCatchupSubscribe::step, (&c, signal), r) ==> match signal {
            SubscriptionSignal::Received(resp) => hands_out(resp, r),
            SubscriptionSignal::Failed(error) | SubscriptionSignal::Refused(error) => if error
                .from_connection {
                r matches SubscriptionStep::Reopen(opening) && opens_log(c, opening)
            } else {
                r matches SubscriptionStep::Fail(code) && code == error.code
            },
            SubscriptionSignal::Ended => r is End,
        },
{
    if let SubscriptionSignal::Received(resp) = signal {
        if let Some(event) = resp.event {
            lemma_event_faults(event);
            lemma_says_event(event, r->Deliver_0);
        }
    }
}

/// A subscription whose connection is lost is opened anew by the call that opened
/// it first.
pub proof fn law_lost_connections_are_opened_as_before(
    a: RegularCatchupSubscribe,
    b: AllCatchupSubscribe,
    error: ErrorStatus,
    opening: Call<ReadReq>,
    failed: SubscriptionStep,
    refused: SubscriptionStep,
)
    requires
        error.from_connection,
    ensures
        call_ensures(RegularCatchupSubscribe::request, (&a,), opening) && call_ensures(
            RegularCatchupSubscribe::step,
            (&a, SubscriptionSignal::Failed(error)),
            failed,
        ) && call_ensures(
            RegularCatchupSubscribe::step,
            (&a, SubscriptionSignal::Refused(error)),
            refused,
        ) ==> failed == SubscriptionStep::Reopen(opening) && refused == failed,
        call_ensures(AllCatchupSubscribe::request, (&b,), opening) && call_ensures(
            AllCatchupSubscribe::step,
            (&b, SubscriptionSignal::Failed(error)),
            failed,
        ) && call_ensures(
            AllCatchupSubscribe::step,
            (&b, SubscriptionSignal::Refused(error)),
            refused,
        ) ==> failed == SubscriptionStep::Reopen(opening) && refused == failed,
{
}

/// An event that was sent, and kept by the server as it was sent, perhaps with more
/// metadata, is read back as it was: with its own identifier where it had one,
/// whatever its content, and with its type, its form, its custom metadata and its
/// content.
pub proof fn law_sent_event_is_read_as_it_was(
    event: EventData,
    req: AppendReq,
    recorded: read::RecordedEvent,
    value: RecordedEvent,
)
    requires
        call_ensures(convert_event_data, (event,), req),
        req.content matches Some(Content::ProposedMessage(message)) && {
            &&& recorded.id == message.id
            &&& message.metadata@.submap_of(recorded.metadata@)
            &&& recorded.custom_metadata@ == message.custom_metadata@
            &&& recorded.data@ == message.data@
        },
    ensures
        call_requires(convert_proto_recorded_event, (recorded,)),
        call_ensures(convert_proto_recorded_event, (recorded,), value) ==> {
            &&& event.id_opt matches Some(own) ==> value.id.bytes@ == own.bytes@
            &&& event.id_opt is None ==> 0x40 <= value.id.bytes@[6] <= 0x4f && 0x80
                <= value.id.bytes@[8] <= 0xbf
            &&& value.event_type@ == event.event_type@
            &&& value.is_json <==> event.payload is Json
            &&& match event.custom_metadata {
                Some(custom) => holds_bytes(custom, value.metadata@),
                None => value.metadata@.len() == 0,
            }
            &&& holds_bytes(event.payload, value.data@)
        },
{
    let id = choose|id: EventId| id_serves(event, id@) && #[trigger] proposes(req, event, id@);
    law_written_event_reads_back(
        event,
        id,
        req.content->0->ProposedMessage_0,
        recorded,
        value,
    );
}

} // verus!
