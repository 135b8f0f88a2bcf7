//! The command that writes events.
use vstd::prelude::*;

use crate::es6::call::Call;
use crate::es6::commands::convert::{convert_expected_version, stream_revision};
use crate::es6::streams::append::{AppendReq, Content, Options};
use crate::es6::types::ExpectedVersion;
use crate::types::Credentials;

verus! {

/// Command that sends events to a given stream.
#[derive(Clone, Debug, PartialEq, Eq)]
pub struct WriteEvents {
    pub stream: String,
    pub require_master: bool,
    pub version: ExpectedVersion,
    pub creds: Option<Credentials>,
}

impl WriteEvents {
    /// A write to `stream`, whatever it looks like.
    pub open spec fn fresh(stream: String) -> WriteEvents {
        WriteEvents { stream, require_master: false, version: ExpectedVersion::Any, creds: None }
    }

    /// The call that carries out the command, with the message that goes ahead
    /// of the events.
    pub open spec fn call(self) -> Call<AppendReq> {
        let options = Options {
            stream_name: self.stream,
            expected_stream_revision: Some(stream_revision(self.version)),
        };
        Call {
            message: AppendReq { content: Some(Content::Options(options)) },
            require_master: self.require_master,
            credentials: self.creds,
        }
    }

    /// A write to `stream`, whatever it looks like.
    pub fn new(stream: String) -> (r: WriteEvents)
        ensures
            r == WriteEvents::fresh(stream),
    {
        WriteEvents { stream, require_master: false, version: ExpectedVersion::Any, creds: None }
    }

    /// Asks the server receiving the command to be the master of the cluster
    /// in order to perform the write. Default: `false`.
    pub fn require_master(self, require_master: bool) -> (r: Self)
        ensures
            r == (WriteEvents { require_master, ..self }),
    {
        WriteEvents { require_master, ..self }
    }

    /// Asks the server to check that the stream receiving the event is at
    /// the given expected version. Default: `ExpectedVersion::Any`.
    pub fn expected_version(self, version: ExpectedVersion) -> (r: Self)
        ensures
            r == (WriteEvents { version, ..self }),
    {
        WriteEvents { version, ..self }
    }

    /// Performs the command with the given credentials.
    pub fn credentials(self, creds: Credentials) -> (r: Self)
        ensures
            r == (WriteEvents { creds: Some(creds), ..self }),
    {
        WriteEvents { creds: Some(creds), ..self }
    }

    /// The call that carries out the command. Its message is the first of the
    /// request; the events follow, each as `convert_event_data` gives it.
    pub fn request(self) -> (r: Call<AppendReq>)
        ensures
            r == self.call(),
    {
        let header = Content::Options(
            Options {
                stream_name: self.stream,
                expected_stream_revision: Some(convert_expected_version(self.version)),
            },
        );
        Call {
            message: AppendReq { content: Some(header) },
            require_master: self.require_master,
            credentials: self.creds,
        }
    }
}

} // verus!
