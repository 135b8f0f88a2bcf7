//! The commands on persistent subscriptions.
use vstd::prelude::*;

use crate::es6::call::Call;
use crate::es6::commands::convert::{
    convert_settings_create, convert_settings_update, create_settings, update_settings,
};
use crate::es6::persistent::{create, delete, read, update};
use crate::es6::types::PersistentSubscriptionSettings;
use crate::types::Credentials;

verus! {

/// A command that creates a persistent subscription for a given group.
#[derive(Clone, Debug, PartialEq, Eq)]
pub struct CreatePersistentSubscription {
    pub stream_id: String,
    pub group_name: String,
    pub sub_settings: PersistentSubscriptionSettings,
    pub creds: Option<Credentials>,
}

impl CreatePersistentSubscription {
    /// The message that carries out the command.
    pub open spec fn message(self) -> create::CreateReq {
        create::CreateReq {
            options: Some(
                create::Options {
                    stream_name: self.stream_id,
                    group_name: self.group_name,
                    settings: Some(create_settings(self.sub_settings)),
                },
            ),
        }
    }

    /// The call that carries out the command.
    pub open spec fn call(self) -> Call<create::CreateReq> {
        Call { message: self.message(), require_master: false, credentials: self.creds }
    }

    /// The creation of a subscription of `group_name` to `stream_id`, with the
    /// standard settings.
    pub fn new(stream_id: String, group_name: String) -> (r: CreatePersistentSubscription)
        ensures
            r == (CreatePersistentSubscription {
                stream_id,
                group_name,
                sub_settings: PersistentSubscriptionSettings::standard(),
                creds: None,
            }),
    {
        CreatePersistentSubscription {
            stream_id,
            group_name,
            creds: None,
            sub_settings: PersistentSubscriptionSettings::default(),
        }
    }

    /// Performs the command with the given credentials.
    pub fn credentials(self, creds: Credentials) -> (r: Self)
        ensures
            r == (CreatePersistentSubscription { creds: Some(creds), ..self }),
    {
        CreatePersistentSubscription { creds: Some(creds), ..self }
    }

    /// Creates a persistent subscription based on the given
    /// `PersistentSubscriptionSettings`.
    pub fn settings(self, sub_settings: PersistentSubscriptionSettings) -> (r: Self)
        ensures
            r == (CreatePersistentSubscription { sub_settings, ..self }),
    {
        CreatePersistentSubscription { sub_settings, ..self }
    }

    /// The call that carries out the command.
    pub fn request(self) -> (r: Call<create::CreateReq>)
        ensures
            r == self.call(),
    {
        let settings = convert_settings_create(self.sub_settings);
        let options = create::Options {
            stream_name: self.stream_id,
            group_name: self.group_name,
            settings: Some(settings),
        };
        let message = create::CreateReq { options: Some(options) };
        Call { message, require_master: false, credentials: self.creds }
    }
}

/// Command that updates an already existing subscription's settings.
#[derive(Clone, Debug, PartialEq, Eq)]
pub struct UpdatePersistentSubscription {
    pub stream_id: String,
    pub group_name: String,
    pub sub_settings: PersistentSubscriptionSettings,
    pub creds: Option<Credentials>,
}

impl UpdatePersistentSubscription {
    /// The message that carries out the command.
    pub open spec fn message(self) -> update::UpdateReq {
        update::UpdateReq {
            options: Some(
                update::Options {
                    stream_name: self.stream_id,
                    group_name: self.group_name,
                    settings: Some(update_settings(self.sub_settings)),
                },
            ),
        }
    }

    /// The call that carries out the command.
    pub open spec fn call(self) -> Call<update::UpdateReq> {
        Call { message: self.message(), require_master: false, credentials: self.creds }
    }

    /// An update of the subscription of `group_name` to `stream_id`, to the
    /// standard settings.
    pub fn new(stream_id: String, group_name: String) -> (r: UpdatePersistentSubscription)
        ensures
            r == (UpdatePersistentSubscription {
                stream_id,
                group_name,
                sub_settings: PersistentSubscriptionSettings::standard(),
                creds: None,
            }),
    {
        UpdatePersistentSubscription {
            stream_id,
            group_name,
            creds: None,
            sub_settings: PersistentSubscriptionSettings::default(),
        }
    }

    /// Performs the command with the given credentials.
    pub fn credentials(self, creds: Credentials) -> (r: Self)
        ensures
            r == (UpdatePersistentSubscription { creds: Some(creds), ..self }),
    {
        UpdatePersistentSubscription { creds: Some(creds), ..self }
    }

    /// Updates a persistent subscription using the given
    /// `PersistentSubscriptionSettings`.
    pub fn settings(self, sub_settings: PersistentSubscriptionSettings) -> (r: Self)
        ensures
            r == (UpdatePersistentSubscription { sub_settings, ..self }),
    {
        UpdatePersistentSubscription { sub_settings, ..self }
    }

    /// The call that carries out the command.
    pub fn request(self) -> (r: Call<update::UpdateReq>)
        ensures
            r == self.call(),
    {
        let settings = convert_settings_update(self.sub_settings);
        let options = update::Options {
            stream_name: self.stream_id,
            group_name: self.group_name,
            settings: Some(settings),
        };
        let message = update::UpdateReq { options: Some(options) };
        Call { message, require_master: false, credentials: self.creds }
    }
}

/// Command that deletes a persistent subscription.
#[derive(Clone, Debug, PartialEq, Eq)]
pub struct DeletePersistentSubscription {
    pub stream_id: String,
    pub group_name: String,
    pub creds: Option<Credentials>,
}

impl DeletePersistentSubscription {
    /// The message that carries out the command.
    pub open spec fn message(self) -> delete::DeleteReq {
        delete::DeleteReq {
            options: Some(
                delete::Options { stream_name: self.stream_id, group_name: self.group_name },
            ),
        }
    }

    /// The call that carries out the command.
    pub open spec fn call(self) -> Call<delete::DeleteReq> {
        Call { message: self.message(), require_master: false, credentials: self.creds }
    }

    /// The deletion of the subscription of `group_name` to `stream_id`.
    pub fn new(stream_id: String, group_name: String) -> (r: DeletePersistentSubscription)
        ensures
            r == (DeletePersistentSubscription { stream_id, group_name, creds: None }),
    {
        DeletePersistentSubscription { stream_id, group_name, creds: None }
    }

    /// Performs the command with the given credentials.
    pub fn credentials(self, creds: Credentials) -> (r: Self)
        ensures
            r == (DeletePersistentSubscription { creds: Some(creds), ..self }),
    {
        DeletePersistentSubscription { creds: Some(creds), ..self }
    }

    /// The call that carries out the command.
    pub fn request(self) -> (r: Call<delete::DeleteReq>)
        ensures
            r == self.call(),
    {
        let options = delete::Options { stream_name: self.stream_id, group_name: self.group_name };
        let message = delete::DeleteReq { options: Some(options) };
        Call { message, require_master: false, credentials: self.creds }
    }
}

/// A subscription model where the server remembers the state of the
/// consumption of a stream. This allows for many different modes of operations
/// compared to a regular subscription where the client hols the subscription
/// state.
#[derive(Clone, Debug, PartialEq, Eq)]
pub struct ConnectToPersistentSubscription {
    pub stream_id: String,
    pub group_name: String,
    pub batch_size: i32,
    pub creds: Option<Credentials>,
}

impl ConnectToPersistentSubscription {
    /// The message that opens the connection.
    pub open spec fn message(self) -> read::ReadReq {
        read::ReadReq {
            content: Some(
                read::Content::Options(
                    read::Options {
                        stream_name: self.stream_id,
                        group_name: self.group_name,
                        buffer_size: self.batch_size,
                        uuid_option: Some(
                            read::UuidOption { content: Some(read::UuidContent::String) },
                        ),
                    },
                ),
            ),
        }
    }

    /// The call that carries out the command.
    pub open spec fn call(self) -> Call<read::ReadReq> {
        Call { message: self.message(), require_master: false, credentials: self.creds }
    }

    /// A connection to the subscription of `group_name` to `stream_id`.
    pub fn new(stream_id: String, group_name: String) -> (r: ConnectToPersistentSubscription)
        ensures
            r == (ConnectToPersistentSubscription {
                stream_id,
                group_name,
                batch_size: 10,
                creds: None,
            }),
    {
        ConnectToPersistentSubscription { stream_id, group_name, batch_size: 10, creds: None }
    }

    /// Performs the command with the given credentials.
    pub fn credentials(self, creds: Credentials) -> (r: Self)
        ensures
            r == (ConnectToPersistentSubscription { creds: Some(creds), ..self }),
    {
        ConnectToPersistentSubscription { creds: Some(creds), ..self }
    }

    /// The buffer size to use  for the persistent subscription.
    pub fn batch_size(self, batch_size: i32) -> (r: Self)
        ensures
            r == (ConnectToPersistentSubscription { batch_size, ..self }),
    {
        ConnectToPersistentSubscription { batch_size, ..self }
    }

    /// The call that opens the connection.
    pub fn request(self) -> (r: Call<read::ReadReq>)
        ensures
            r == self.call(),
    {
        let uuid_option = read::UuidOption { content: Some(read::UuidContent::String) };
        let options = read::Options {
            stream_name: self.stream_id,
            group_name: self.group_name,
            buffer_size: self.batch_size,
            uuid_option: Some(uuid_option),
        };
        let message = read::ReadReq { content: Some(read::Content::Options(options)) };
        Call { message, require_master: false, credentials: self.creds }
    }
}

} // verus!
