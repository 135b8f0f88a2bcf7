//! The command that deletes a stream.
use vstd::prelude::*;

use crate::es6::call::Call;
use crate::es6::commands::convert::{
    convert_expected_version, convert_position_option, log_position, stream_revision,
};
use crate::es6::streams::delete::{DeleteReq, DeleteResp, Options, TombstoneReq, TombstoneResp};
use crate::es6::types::{ExpectedVersion, Position};
use crate::types::Credentials;

verus! {

/// Command that deletes a stream. More information on [Deleting stream and events].
///
/// [Deleting stream and events]: https://eventstore.org/docs/server/deleting-streams-and-events/index.html
#[derive(Clone, Debug, PartialEq, Eq)]
pub struct DeleteStream {
    pub stream: String,
    pub require_master: bool,
    pub version: ExpectedVersion,
    pub creds: Option<Credentials>,
    pub hard_delete: bool,
}

/// The message of a deletion, by its kind.
#[derive(Clone, Debug, PartialEq, Eq)]
pub enum DeleteMessage {
    Soft(DeleteReq),
    Hard(TombstoneReq),
}

impl DeleteStream {
    /// A soft deletion of `stream`, whatever it looks like.
    pub open spec fn fresh(stream: String) -> DeleteStream {
        DeleteStream {
            stream,
            require_master: false,
            hard_delete: false,
            version: ExpectedVersion::Any,
            creds: None,
        }
    }

    /// Which stream is deleted, and what it has to look like.
    pub open spec fn options(self) -> Options {
        Options {
            stream_name: self.stream,
            expected_stream_revision: Some(stream_revision(self.version)),
        }
    }

    /// The call that carries out the command.
    pub open spec fn call(self) -> Call<DeleteMessage> {
        Call {
            message: if self.hard_delete {
                DeleteMessage::Hard(TombstoneReq { options: Some(self.options()) })
            } else {
                DeleteMessage::Soft(DeleteReq { options: Some(self.options()) })
            },
            require_master: self.require_master,
            credentials: self.creds,
        }
    }

    /// A soft deletion of `stream`, whatever it looks like.
    pub fn new(stream: String) -> (r: DeleteStream)
        ensures
            r == DeleteStream::fresh(stream),
    {
        DeleteStream {
            stream,
            require_master: false,
            hard_delete: false,
            version: ExpectedVersion::Any,
            creds: None,
        }
    }

    /// Asks the server receiving the command to be the master of the cluster
    /// in order to perform the write. Default: `false`.
    pub fn require_master(self, require_master: bool) -> (r: Self)
        ensures
            r == (DeleteStream { require_master, ..self }),
    {
        DeleteStream { require_master, ..self }
    }

    /// Asks the server to check that the stream receiving the event is at
    /// the given expected version. Default: `ExpectedVersion::Any`.
    pub fn expected_version(self, version: ExpectedVersion) -> (r: Self)
        ensures
            r == (DeleteStream { version, ..self }),
    {
        DeleteStream { version, ..self }
    }

    /// Performs the command with the given credentials.
    pub fn credentials(self, value: Credentials) -> (r: Self)
        ensures
            r == (DeleteStream { creds: Some(value), ..self }),
    {
        DeleteStream { creds: Some(value), ..self }
    }

    /// Makes use of Truncate before. When a stream is deleted, its Truncate
    /// before is set to the streams current last event number. When a soft
    /// deleted stream is read, the read will return a StreamNotFound. After
    /// deleting the stream, you are able to write to it again, continuing from
    /// where it left off.
    ///
    /// That is the default behavior.
    pub fn soft_delete(self) -> (r: Self)
        ensures
            r == (DeleteStream { hard_delete: false, ..self }),
    {
        DeleteStream { hard_delete: false, ..self }
    }

    /// A hard delete writes a tombstone event to the stream, permanently
    /// deleting it. The stream cannot be recreated or written to again.
    /// Tombstone events are written with the event type '$streamDeleted'. When
    /// a hard deleted stream is read, the read will return a StreamDeleted.
    pub fn hard_delete(self) -> (r: Self)
        ensures
            r == (DeleteStream { hard_delete: true, ..self }),
    {
        DeleteStream { hard_delete: true, ..self }
    }

    /// The call that carries out the command.
    pub fn request(self) -> (r: Call<DeleteMessage>)
        ensures
            r == self.call(),
    {
        let options = Options {
            stream_name: self.stream,
            expected_stream_revision: Some(convert_expected_version(self.version)),
        };
        let message = if self.hard_delete {
            DeleteMessage::Hard(TombstoneReq { options: Some(options) })
        } else {
            DeleteMessage::Soft(DeleteReq { options: Some(options) })
        };
        Call { message, require_master: self.require_master, credentials: self.creds }
    }
}

/// Where in the transaction log a soft deletion was carried out, if the reply
/// says so.
pub fn convert_delete_resp(resp: DeleteResp) -> (r: Option<Position>)
    ensures
        r == log_position(resp.position_option),
{
    convert_position_option(resp.position_option)
}

/// Where in the transaction log a hard deletion was carried out, if the reply
/// says so.
pub fn convert_tombstone_resp(resp: TombstoneResp) -> (r: Option<Position>)
    ensures
        r == log_position(resp.position_option),
{
    convert_position_option(resp.position_option)
}

} // verus!
