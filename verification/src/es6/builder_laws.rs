//! What the builder methods of the commands promise, said of the calls themselves:
//! each sets what it is named after, to what it is given, and leaves the rest.
use vstd::prelude::*;

use crate::es6::commands::catchup::{AllCatchupSubscribe, RegularCatchupSubscribe};
use crate::es6::commands::delete::DeleteStream;
use crate::es6::commands::persistent::{
    ConnectToPersistentSubscription, CreatePersistentSubscription, DeletePersistentSubscription,
    UpdatePersistentSubscription,
};
use crate::es6::commands::read::{ReadAllEvents, ReadStreamEvents};
use crate::es6::commands::write::WriteEvents;
use crate::es6::types::{
    ExpectedVersion, PersistentSubscriptionSettings, Position, Revision,
};
use crate::types::{Credentials, LinkTos, ReadDirection, SystemConsumerStrategy};

verus! {

/// A new command for a write says what it is for, and asks for
/// nothing else.
pub proof fn law_new_write(stream: String, r: WriteEvents)
    ensures
        call_requires(WriteEvents::new, (stream,)),
        call_ensures(WriteEvents::new, (stream,), r) ==> {
            &&& r.stream == stream
            &&& r.require_master == false
            &&& r.version == ExpectedVersion::Any
            &&& r.creds == None::<Credentials>
        },
{
}

/// Each method on a write sets what it is named after, and
/// leaves the rest.
pub proof fn law_write_methods(
    c: WriteEvents,
    r: WriteEvents,
    flag: bool,
    version: ExpectedVersion,
    creds: Credentials,
)
    ensures
        call_requires(WriteEvents::require_master, (c, flag)),
        call_ensures(WriteEvents::require_master, (c, flag), r) ==> {
            &&& r.stream == c.stream
            &&& r.require_master == flag
            &&& r.version == c.version
            &&& r.creds == c.creds
        },
        call_requires(WriteEvents::expected_version, (c, version)),
        call_ensures(WriteEvents::expected_version, (c, version), r) ==> {
            &&& r.stream == c.stream
            &&& r.require_master == c.require_master
            &&& r.version == version
            &&& r.creds == c.creds
        },
        call_requires(WriteEvents::credentials, (c, creds)),
        call_ensures(WriteEvents::credentials, (c, creds), r) ==> {
            &&& r.stream == c.stream
            &&& r.require_master == c.require_master
            &&& r.version == c.version
            &&& r.creds == Some(creds)
        },
{
}

/// A new command for the read of a stream says what it is for, and asks for
/// nothing else.
pub proof fn law_new_stream_read(stream: String, r: ReadStreamEvents)
    ensures
        call_requires(ReadStreamEvents::new, (stream,)),
        call_ensures(ReadStreamEvents::new, (stream,), r) ==> {
            &&& r.stream == stream
            &&& r.max_count == 500
            &&& r.revision is Start
            &&& r.require_master == false
            &&& r.resolve_link_tos == false
            &&& r.direction == ReadDirection::Forward
            &&& r.creds == None::<Credentials>
        },
{
}

/// Each method on the read of a stream sets what it is named after, and
/// leaves the rest.
pub proof fn law_stream_read_methods(
    c: ReadStreamEvents,
    r: ReadStreamEvents,
    creds: Credentials,
    maybe: Option<Credentials>,
    max_count: i32,
    start: u64,
    flag: bool,
    tos: LinkTos,
)
    ensures
        call_requires(ReadStreamEvents::forward, (c,)),
        call_ensures(ReadStreamEvents::forward, (c,), r) ==> {
            &&& r.stream == c.stream
            &&& r.max_count == c.max_count
            &&& r.revision == c.revision
            &&& r.require_master == c.require_master
            &&& r.resolve_link_tos == c.resolve_link_tos
            &&& r.direction == ReadDirection::Forward
            &&& r.creds == c.creds
        },
        call_requires(ReadStreamEvents::backward, (c,)),
        call_ensures(ReadStreamEvents::backward, (c,), r) ==> {
            &&& r.stream == c.stream
            &&& r.max_count == c.max_count
            &&& r.revision == c.revision
            &&& r.require_master == c.require_master
            &&& r.resolve_link_tos == c.resolve_link_tos
            &&& r.direction == ReadDirection::Backward
            &&& r.creds == c.creds
        },
        call_requires(ReadStreamEvents::credentials, (c, creds)),
        call_ensures(ReadStreamEvents::credentials, (c, creds), r) ==> {
            &&& r.stream == c.stream
            &&& r.max_count == c.max_count
            &&& r.revision == c.revision
            &&& r.require_master == c.require_master
            &&& r.resolve_link_tos == c.resolve_link_tos
            &&& r.direction == c.direction
            &&& r.creds == Some(creds)
        },
        call_requires(ReadStreamEvents::set_credentials, (c, maybe)),
        call_ensures(ReadStreamEvents::set_credentials, (c, maybe), r) ==> {
            &&& r.stream == c.stream
            &&& r.max_count == c.max_count
            &&& r.revision == c.revision
            &&& r.require_master == c.require_master
            &&& r.resolve_link_tos == c.resolve_link_tos
            &&& r.direction == c.direction
            &&& r.creds == maybe
        },
        call_requires(ReadStreamEvents::max_count, (c, max_count)),
        call_ensures(ReadStreamEvents::max_count, (c, max_count), r) ==> {
            &&& r.stream == c.stream
            &&& r.max_count == max_count
            &&& r.revision == c.revision
            &&& r.require_master == c.require_master
            &&& r.resolve_link_tos == c.resolve_link_tos
            &&& r.direction == c.direction
            &&& r.creds == c.creds
        },
        call_requires(ReadStreamEvents::start_from, (c, start)),
        call_ensures(ReadStreamEvents::start_from, (c, start), r) ==> {
            &&& r.stream == c.stream
            &&& r.max_count == c.max_count
            &&& r.revision == Revision::Exact(start)
            &&& r.require_master == c.require_master
            &&& r.resolve_link_tos == c.resolve_link_tos
            &&& r.direction == c.direction
            &&& r.creds == c.creds
        },
        call_requires(ReadStreamEvents::start_from_beginning, (c,)),
        call_ensures(ReadStreamEvents::start_from_beginning, (c,), r) ==> {
            &&& r.stream == c.stream
            &&& r.max_count == c.max_count
            &&& r.revision is Start
            &&& r.require_master == c.require_master
            &&& r.resolve_link_tos == c.resolve_link_tos
            &&& r.direction == ReadDirection::Forward
            &&& r.creds == c.creds
        },
        call_requires(ReadStreamEvents::start_from_end_of_stream, (c,)),
        call_ensures(ReadStreamEvents::start_from_end_of_stream, (c,), r) ==> {
            &&& r.stream == c.stream
            &&& r.max_count == c.max_count
            &&& r.revision is End
            &&& r.require_master == c.require_master
            &&& r.resolve_link_tos == c.resolve_link_tos
            &&& r.direction == ReadDirection::Backward
            &&& r.creds == c.creds
        },
        call_requires(ReadStreamEvents::require_master, (c, flag)),
        call_ensures(ReadStreamEvents::require_master, (c, flag), r) ==> {
            &&& r.stream == c.stream
            &&& r.max_count == c.max_count
            &&& r.revision == c.revision
            &&& r.require_master == flag
            &&& r.resolve_link_tos == c.resolve_link_tos
            &&& r.direction == c.direction
            &&& r.creds == c.creds
        },
        call_requires(ReadStreamEvents::resolve_link_tos, (c, tos)),
        call_ensures(ReadStreamEvents::resolve_link_tos, (c, tos), r) ==> {
            &&& r.stream == c.stream
            &&& r.max_count == c.max_count
            &&& r.revision == c.revision
            &&& r.require_master == c.require_master
            &&& r.resolve_link_tos == (tos == LinkTos::ResolveLink)
            &&& r.direction == c.direction
            &&& r.creds == c.creds
        },
{
}

/// A new command for the read of the transaction log says what it is for, and asks for
/// nothing else.
pub proof fn law_new_log_read(r: ReadAllEvents)
    ensures
        call_requires(ReadAllEvents::new, ()),
        call_ensures(ReadAllEvents::new, (), r) ==> {
            &&& r.max_count == 500
            &&& r.revision is Start
            &&& r.require_master == false
            &&& r.resolve_link_tos == false
            &&& r.direction == ReadDirection::Forward
            &&& r.creds == None::<Credentials>
        },
{
}

/// Each method on the read of the transaction log sets what it is named after, and
/// leaves the rest.
pub proof fn law_log_read_methods(
    c: ReadAllEvents,
    r: ReadAllEvents,
    creds: Credentials,
    max_count: i32,
    start: Position,
    flag: bool,
    tos: LinkTos,
)
    ensures
        call_requires(ReadAllEvents::forward, (c,)),
        call_ensures(ReadAllEvents::forward, (c,), r) ==> {
            &&& r.max_count == c.max_count
            &&& r.revision == c.revision
            &&& r.require_master == c.require_master
            &&& r.resolve_link_tos == c.resolve_link_tos
            &&& r.direction == ReadDirection::Forward
            &&& r.creds == c.creds
        },
        call_requires(ReadAllEvents::backward, (c,)),
        call_ensures(ReadAllEvents::backward, (c,), r) ==> {
            &&& r.max_count == c.max_count
            &&& r.revision == c.revision
            &&& r.require_master == c.require_master
            &&& r.resolve_link_tos == c.resolve_link_tos
            &&& r.direction == ReadDirection::Backward
            &&& r.creds == c.creds
        },
        call_requires(ReadAllEvents::credentials, (c, creds)),
        call_ensures(ReadAllEvents::credentials, (c, creds), r) ==> {
            &&& r.max_count == c.max_count
            &&& r.revision == c.revision
            &&& r.require_master == c.require_master
            &&& r.resolve_link_tos == c.resolve_link_tos
            &&& r.direction == c.direction
            &&& r.creds == Some(creds)
        },
        call_requires(ReadAllEvents::max_count, (c, max_count)),
        call_ensures(ReadAllEvents::max_count, (c, max_count), r) ==> {
            &&& r.max_count == max_count
            &&& r.revision == c.revision
            &&& r.require_master == c.require_master
            &&& r.resolve_link_tos == c.resolve_link_tos
            &&& r.direction == c.direction
            &&& r.creds == c.creds
        },
        call_requires(ReadAllEvents::start_from, (c, start)),
        call_ensures(ReadAllEvents::start_from, (c, start), r) ==> {
            &&& r.max_count == c.max_count
            &&& r.revision == Revision::Exact(start)
            &&& r.require_master == c.require_master
            &&& r.resolve_link_tos == c.resolve_link_tos
            &&& r.direction == c.direction
            &&& r.creds == c.creds
        },
        call_requires(ReadAllEvents::start_from_beginning, (c,)),
        call_ensures(ReadAllEvents::start_from_beginning, (c,), r) ==> {
            &&& r.max_count == c.max_count
            &&& r.revision is Start
            &&& r.require_master == c.require_master
            &&& r.resolve_link_tos == c.resolve_link_tos
            &&& r.direction == ReadDirection::Forward
            &&& r.creds == c.creds
        },
        call_requires(ReadAllEvents::start_from_end_of_stream, (c,)),
        call_ensures(ReadAllEvents::start_from_end_of_stream, (c,), r) ==> {
            &&& r.max_count == c.max_count
            &&& r.revision is End
            &&& r.require_master == c.require_master
            &&& r.resolve_link_tos == c.resolve_link_tos
            &&& r.direction == ReadDirection::Backward
            &&& r.creds == c.creds
        },
        call_requires(ReadAllEvents::require_master, (c, flag)),
        call_ensures(ReadAllEvents::require_master, (c, flag), r) ==> {
            &&& r.max_count == c.max_count
            &&& r.revision == c.revision
            &&& r.require_master == flag
            &&& r.resolve_link_tos == c.resolve_link_tos
            &&& r.direction == c.direction
            &&& r.creds == c.creds
        },
        call_requires(ReadAllEvents::resolve_link_tos, (c, tos)),
        call_ensures(ReadAllEvents::resolve_link_tos, (c, tos), r) ==> {
            &&& r.max_count == c.max_count
            &&& r.revision == c.revision
            &&& r.require_master == c.require_master
            &&& r.resolve_link_tos == (tos == LinkTos::ResolveLink)
            &&& r.direction == c.direction
            &&& r.creds == c.creds
        },
{
}

/// A new command for a deletion says what it is for, and asks for
/// nothing else.
pub proof fn law_new_deletion(stream: String, r: DeleteStream)
    ensures
        call_requires(DeleteStream::new, (stream,)),
        call_ensures(DeleteStream::new, (stream,), r) ==> {
            &&& r.stream == stream
            &&& r.require_master == false
            &&& r.version == ExpectedVersion::Any
            &&& r.creds == None::<Credentials>
            &&& r.hard_delete == false
        },
{
}

/// Each method on a deletion sets what it is named after, and
/// leaves the rest.
pub proof fn law_deletion_methods(
    c: DeleteStream,
    r: DeleteStream,
    flag: bool,
    version: ExpectedVersion,
    creds: Credentials,
)
    ensures
        call_requires(DeleteStream::require_master, (c, flag)),
        call_ensures(DeleteStream::require_master, (c, flag), r) ==> {
            &&& r.stream == c.stream
            &&& r.require_master == flag
            &&& r.version == c.version
            &&& r.creds == c.creds
            &&& r.hard_delete == c.hard_delete
        },
        call_requires(DeleteStream::expected_version, (c, version)),
        call_ensures(DeleteStream::expected_version, (c, version), r) ==> {
            &&& r.stream == c.stream
            &&& r.require_master == c.require_master
            &&& r.version == version
            &&& r.creds == c.creds
            &&& r.hard_delete == c.hard_delete
        },
        call_requires(DeleteStream::credentials, (c, creds)),
        call_ensures(DeleteStream::credentials, (c, creds), r) ==> {
            &&& r.stream == c.stream
            &&& r.require_master == c.require_master
            &&& r.version == c.version
            &&& r.creds == Some(creds)
            &&& r.hard_delete == c.hard_delete
        },
        call_requires(DeleteStream::soft_delete, (c,)),
        call_ensures(DeleteStream::soft_delete, (c,), r) ==> {
            &&& r.stream == c.stream
            &&& r.require_master == c.require_master
            &&& r.version == c.version
            &&& r.creds == c.creds
            &&& r.hard_delete == false
        },
        call_requires(DeleteStream::hard_delete, (c,)),
        call_ensures(DeleteStream::hard_delete, (c,), r) ==> {
            &&& r.stream == c.stream
            &&& r.require_master == c.require_master
            &&& r.version == c.version
            &&& r.creds == c.creds
            &&& r.hard_delete == true
        },
{
}

/// A new command for a subscription to a stream says what it is for, and asks for
/// nothing else.
pub proof fn law_new_stream_subscription(stream: String, r: RegularCatchupSubscribe)
    ensures
        call_requires(RegularCatchupSubscribe::new, (stream,)),
        call_ensures(RegularCatchupSubscribe::new, (stream,), r) ==> {
            &&& r.stream_id == stream
            &&& r.resolve_link_tos == false
            &&& r.require_master == false
            &&& r.batch_size == 500
            &&& r.revision == None::<u64>
            &&& r.creds_opt == None::<Credentials>
        },
{
}

/// Each method on a subscription to a stream sets what it is named after, and
/// leaves the rest.
pub proof fn law_stream_subscription_methods(
    c: RegularCatchupSubscribe,
    r: RegularCatchupSubscribe,
    tos: LinkTos,
    flag: bool,
    start: u64,
    creds: Credentials,
)
    ensures
        call_requires(RegularCatchupSubscribe::resolve_link_tos, (c, tos)),
        call_ensures(RegularCatchupSubscribe::resolve_link_tos, (c, tos), r) ==> {
            &&& r.stream_id == c.stream_id
            &&& r.resolve_link_tos == (tos == LinkTos::ResolveLink)
            &&& r.require_master == c.require_master
            &&& r.batch_size == c.batch_size
            &&& r.revision == c.revision
            &&& r.creds_opt == c.creds_opt
        },
        call_requires(RegularCatchupSubscribe::require_master, (c, flag)),
        call_ensures(RegularCatchupSubscribe::require_master, (c, flag), r) ==> {
            &&& r.stream_id == c.stream_id
            &&& r.resolve_link_tos == c.resolve_link_tos
            &&& r.require_master == flag
            &&& r.batch_size == c.batch_size
            &&& r.revision == c.revision
            &&& r.creds_opt == c.creds_opt
        },
        call_requires(RegularCatchupSubscribe::start_position, (c, start)),
        call_ensures(RegularCatchupSubscribe::start_position, (c, start), r) ==> {
            &&& r.stream_id == c.stream_id
            &&& r.resolve_link_tos == c.resolve_link_tos
            &&& r.require_master == c.require_master
            &&& r.batch_size == c.batch_size
            &&& r.revision == Some(start)
            &&& r.creds_opt == c.creds_opt
        },
        call_requires(RegularCatchupSubscribe::credentials, (c, creds)),
        call_ensures(RegularCatchupSubscribe::credentials, (c, creds), r) ==> {
            &&& r.stream_id == c.stream_id
            &&& r.resolve_link_tos == c.resolve_link_tos
            &&& r.require_master == c.require_master
            &&& r.batch_size == c.batch_size
            &&& r.revision == c.revision
            &&& r.creds_opt == Some(creds)
        },
{
}

/// A new command for a subscription to the transaction log says what it is for, and asks for
/// nothing else.
pub proof fn law_new_log_subscription(r: AllCatchupSubscribe)
    ensures
        call_requires(AllCatchupSubscribe::new, ()),
        call_ensures(AllCatchupSubscribe::new, (), r) ==> {
            &&& r.resolve_link_tos == false
            &&& r.require_master == false
            &&& r.batch_size == 500
            &&& r.revision == None::<Position>
            &&& r.creds_opt == None::<Credentials>
        },
{
}

/// Each method on a subscription to the transaction log sets what it is named after, and
/// leaves the rest.
pub proof fn law_log_subscription_methods(
    c: AllCatchupSubscribe,
    r: AllCatchupSubscribe,
    tos: LinkTos,
    flag: bool,
    start: Position,
    creds: Credentials,
)
    ensures
        call_requires(AllCatchupSubscribe::resolve_link_tos, (c, tos)),
        call_ensures(AllCatchupSubscribe::resolve_link_tos, (c, tos), r) ==> {
            &&& r.resolve_link_tos == (tos == LinkTos::ResolveLink)
            &&& r.require_master == c.require_master
            &&& r.batch_size == c.batch_size
            &&& r.revision == c.revision
            &&& r.creds_opt == c.creds_opt
        },
        call_requires(AllCatchupSubscribe::require_master, (c, flag)),
        call_ensures(AllCatchupSubscribe::require_master, (c, flag), r) ==> {
            &&& r.resolve_link_tos == c.resolve_link_tos
            &&& r.require_master == flag
            &&& r.batch_size == c.batch_size
            &&& r.revision == c.revision
            &&& r.creds_opt == c.creds_opt
        },
        call_requires(AllCatchupSubscribe::start_position, (c, start)),
        call_ensures(AllCatchupSubscribe::start_position, (c, start), r) ==> {
            &&& r.resolve_link_tos == c.resolve_link_tos
            &&& r.require_master == c.require_master
            &&& r.batch_size == c.batch_size
            &&& r.revision == Some(start)
            &&& r.creds_opt == c.creds_opt
        },
        call_requires(AllCatchupSubscribe::credentials, (c, creds)),
        call_ensures(AllCatchupSubscribe::credentials, (c, creds), r) ==> {
            &&& r.resolve_link_tos == c.resolve_link_tos
            &&& r.require_master == c.require_master
            &&& r.batch_size == c.batch_size
            &&& r.revision == c.revision
            &&& r.creds_opt == Some(creds)
        },
{
}

/// A new command for the creation of a persistent subscription says what it is for, and asks for
/// nothing else.
pub proof fn law_new_creation(stream: String, group: String, r: CreatePersistentSubscription)
    ensures
        call_requires(CreatePersistentSubscription::new, (stream, group)),
        call_ensures(CreatePersistentSubscription::new, (stream, group), r) ==> {
            &&& r.stream_id == stream
            &&& r.group_name == group
            &&& r.creds == None::<Credentials>
            &&& is_standard(r.sub_settings)
        },
{
}

/// Each method on the creation of a persistent subscription sets what it is named after, and
/// leaves the rest.
pub proof fn law_creation_methods(
    c: CreatePersistentSubscription,
    r: CreatePersistentSubscription,
    creds: Credentials,
    settings: PersistentSubscriptionSettings,
)
    ensures
        call_requires(CreatePersistentSubscription::credentials, (c, creds)),
        call_ensures(CreatePersistentSubscription::credentials, (c, creds), r) ==> {
            &&& r.stream_id == c.stream_id
            &&& r.group_name == c.group_name
            &&& r.sub_settings == c.sub_settings
            &&& r.creds == Some(creds)
        },
        call_requires(CreatePersistentSubscription::settings, (c, settings)),
        call_ensures(CreatePersistentSubscription::settings, (c, settings), r) ==> {
            &&& r.stream_id == c.stream_id
            &&& r.group_name == c.group_name
            &&& r.sub_settings == settings
            &&& r.creds == c.creds
        },
{
}

/// A new command for the update of a persistent subscription says what it is for, and asks for
/// nothing else.
pub proof fn law_new_update(stream: String, group: String, r: UpdatePersistentSubscription)
    ensures
        call_requires(UpdatePersistentSubscription::new, (stream, group)),
        call_ensures(UpdatePersistentSubscription::new, (stream, group), r) ==> {
            &&& r.stream_id == stream
            &&& r.group_name == group
            &&& r.creds == None::<Credentials>
            &&& is_standard(r.sub_settings)
        },
{
}

/// Each method on the update of a persistent subscription sets what it is named after, and
/// leaves the rest.
pub proof fn law_update_methods(
    c: UpdatePersistentSubscription,
    r: UpdatePersistentSubscription,
    creds: Credentials,
    settings: PersistentSubscriptionSettings,
)
    ensures
        call_requires(UpdatePersistentSubscription::credentials, (c, creds)),
        call_ensures(UpdatePersistentSubscription::credentials, (c, creds), r) ==> {
            &&& r.stream_id == c.stream_id
            &&& r.group_name == c.group_name
            &&& r.sub_settings == c.sub_settings
            &&& r.creds == Some(creds)
        },
        call_requires(UpdatePersistentSubscription::settings, (c, settings)),
        call_ensures(UpdatePersistentSubscription::settings, (c, settings), r) ==> {
            &&& r.stream_id == c.stream_id
            &&& r.group_name == c.group_name
            &&& r.sub_settings == settings
            &&& r.creds == c.creds
        },
{
}

/// A new command for the deletion of a persistent subscription says what it is for, and asks for
/// nothing else.
pub proof fn law_new_removal(stream: String, group: String, r: DeletePersistentSubscription)
    ensures
        call_requires(DeletePersistentSubscription::new, (stream, group)),
        call_ensures(DeletePersistentSubscription::new, (stream, group), r) ==> {
            &&& r.stream_id == stream
            &&& r.group_name == group
            &&& r.creds == None::<Credentials>
        },
{
}

/// Each method on the deletion of a persistent subscription sets what it is named after, and
/// leaves the rest.
pub proof fn law_removal_methods(
    c: DeletePersistentSubscription,
    r: DeletePersistentSubscription,
    creds: Credentials,
)
    ensures
        call_requires(DeletePersistentSubscription::credentials, (c, creds)),
        call_ensures(DeletePersistentSubscription::credentials, (c, creds), r) ==> {
            &&& r.stream_id == c.stream_id
            &&& r.group_name == c.group_name
            &&& r.creds == Some(creds)
        },
{
}

/// A new command for the connection to a persistent subscription says what it is for, and asks for
/// nothing else.
pub proof fn law_new_connection(stream: String, group: String, r: ConnectToPersistentSubscription)
    ensures
        call_requires(ConnectToPersistentSubscription::new, (stream, group)),
        call_ensures(ConnectToPersistentSubscription::new, (stream, group), r) ==> {
            &&& r.stream_id == stream
            &&& r.group_name == group
            &&& r.batch_size == 10
            &&& r.creds == None::<Credentials>
        },
{
}

/// Each method on the connection to a persistent subscription sets what it is named after, and
/// leaves the rest.
pub proof fn law_connection_methods(
    c: ConnectToPersistentSubscription,
    r: ConnectToPersistentSubscription,
    creds: Credentials,
    batch_size: i32,
)
    ensures
        call_requires(ConnectToPersistentSubscription::credentials, (c, creds)),
        call_ensures(ConnectToPersistentSubscription::credentials, (c, creds), r) ==> {
            &&& r.stream_id == c.stream_id
            &&& r.group_name == c.group_name
            &&& r.batch_size == c.batch_size
            &&& r.creds == Some(creds)
        },
        call_requires(ConnectToPersistentSubscription::batch_size, (c, batch_size)),
        call_ensures(ConnectToPersistentSubscription::batch_size, (c, batch_size), r) ==> {
            &&& r.stream_id == c.stream_id
            &&& r.group_name == c.group_name
            &&& r.batch_size == batch_size
            &&& r.creds == c.creds
        },
{
}

/// Whether settings are those that hold where nothing else is asked for.
pub open spec fn is_standard(s: PersistentSubscriptionSettings) -> bool {
    &&& !s.resolve_links && s.revision == 0 && !s.extra_stats
    &&& s.message_timeout.secs == 30 && s.message_timeout.nanos == 0
    &&& s.max_retry_count == 500
    &&& s.checkpoint_after.secs == 2 && s.checkpoint_after.nanos == 0
    &&& s.min_checkpoint_count == 10 && s.max_checkpoint_count == 1000
    &&& s.max_subscriber_count == 0
    &&& s.live_buffer_size == 500 && s.read_batch_size == 10 && s.history_buffer_size == 20
    &&& s.named_consumer_strategy == SystemConsumerStrategy::RoundRobin
}

/// The settings that hold where nothing else is asked for.
pub proof fn law_default_settings_are_standard(r: PersistentSubscriptionSettings)
    requires
        call_ensures(PersistentSubscriptionSettings::default, (), r),
    ensures
        is_standard(r),
{
}

/// The transaction log begins at position 0.
pub proof fn law_log_begins_at_zero(r: Position)
    ensures
        call_requires(Position::start, ()),
        call_ensures(Position::start, (), r) ==> r.commit == 0 && r.prepare == 0,
{
}

} // verus!
