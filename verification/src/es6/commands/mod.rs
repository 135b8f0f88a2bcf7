//! Commands this client supports.
//!
//! A command is put together by its builder methods and then turned into the
//! call that carries it out. The batch size of reads and catch-up subscriptions
//! stays with the command: the messages have no field for it.
pub mod catchup;
pub mod convert;
pub mod delete;
pub mod persistent;
pub mod read;
pub mod write;

pub use catchup::{AllCatchupSubscribe, RegularCatchupSubscribe};
pub use convert::{
    convert_event_data, convert_expected_version, convert_proto_read_event,
    convert_proto_recorded_event, convert_settings_create, convert_settings_update,
    raw_uuid_to_uuid,
};
pub use delete::DeleteStream;
pub use persistent::{
    ConnectToPersistentSubscription, CreatePersistentSubscription, DeletePersistentSubscription,
    UpdatePersistentSubscription,
};
pub use read::{ReadAllEvents, ReadStreamEvents};
pub use write::WriteEvents;
