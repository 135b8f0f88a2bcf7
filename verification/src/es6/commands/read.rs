//! The commands that read events.
use vstd::prelude::*;

use crate::es6::call::Call;
use crate::es6::streams::read::{
    AllOption, AllOptions, CountOption, FilterOption, Options, ReadReq, RevisionOption,
    StreamOption, StreamOptions, UuidContent, UuidOption,
};
use crate::es6::streams::LogPosition;
use crate::es6::types::{Position, Revision};
use crate::types::{Credentials, LinkTos, ReadDirection};

verus! {

/// How the protocol numbers the two directions.
pub open spec fn direction_number(direction: ReadDirection) -> i32 {
    match direction {
        ReadDirection::Forward => 0,
        ReadDirection::Backward => 1,
    }
}

/// Numbers a direction as the protocol does.
pub fn convert_direction(direction: ReadDirection) -> (r: i32)
    ensures
        r == direction_number(direction),
{
    match direction {
        ReadDirection::Forward => 0,
        ReadDirection::Backward => 1,
    }
}

/// How the protocol writes where the read of a stream sets in.
pub open spec fn revision_option(revision: Revision<u64>) -> RevisionOption {
    match revision {
        Revision::Exact(revision) => RevisionOption::Revision(revision),
        Revision::Start => RevisionOption::Start,
        Revision::End => RevisionOption::End,
    }
}

/// Writes where the read of a stream sets in, as the protocol does.
pub fn convert_revision(revision: Revision<u64>) -> (r: RevisionOption)
    ensures
        r == revision_option(revision),
{
    match revision {
        Revision::Exact(revision) => RevisionOption::Revision(revision),
        Revision::Start => RevisionOption::Start,
        Revision::End => RevisionOption::End,
    }
}

/// How the protocol writes where the read of the transaction log sets in.
pub open spec fn all_option(revision: Revision<Position>) -> AllOption {
    match revision {
        Revision::Exact(position) => AllOption::Position(
            LogPosition { commit_position: position.commit, prepare_position: position.prepare },
        ),
        Revision::Start => AllOption::Start,
        Revision::End => AllOption::End,
    }
}

/// Writes where the read of the transaction log sets in, as the protocol does.
pub fn convert_log_revision(revision: Revision<Position>) -> (r: AllOption)
    ensures
        r == all_option(revision),
{
    match revision {
        Revision::Exact(position) => AllOption::Position(
            LogPosition { commit_position: position.commit, prepare_position: position.prepare },
        ),
        Revision::Start => AllOption::Start,
        Revision::End => AllOption::End,
    }
}

/// What is read of one stream.
pub open spec fn stream_source(stream: String, revision: Revision<u64>) -> StreamOption {
    StreamOption::Stream(
        StreamOptions {
            stream_name: stream,
            revision_option: Some(revision_option(revision)),
        },
    )
}

/// What is read of the transaction log.
pub open spec fn log_source(revision: Revision<Position>) -> StreamOption {
    StreamOption::All(AllOptions { all_option: Some(all_option(revision)) })
}

/// A request that leaves no event out, and has the server write identifiers as
/// text.
pub open spec fn plain_read(
    source: StreamOption,
    resolve_links: bool,
    count: CountOption,
    direction: ReadDirection,
) -> ReadReq {
    ReadReq {
        options: Some(
            Options {
                stream_option: Some(source),
                resolve_links,
                filter_option: Some(FilterOption::NoFilter),
                count_option: Some(count),
                uuid_option: Some(UuidOption { content: Some(UuidContent::String) }),
                read_direction: direction_number(direction),
            },
        ),
    }
}

/// A request that leaves no event out, and has the server write identifiers as
/// text.
pub fn make_plain_read(
    source: StreamOption,
    resolve_links: bool,
    count: CountOption,
    direction: ReadDirection,
) -> (r: ReadReq)
    ensures
        r == plain_read(source, resolve_links, count, direction),
{
    let options = Options {
        stream_option: Some(source),
        resolve_links,
        filter_option: Some(FilterOption::NoFilter),
        count_option: Some(count),
        uuid_option: Some(UuidOption { content: Some(UuidContent::String) }),
        read_direction: convert_direction(direction),
    };
    ReadReq { options: Some(options) }
}

/// A command that reads several events from a stream. It can read events
/// forward or backward.
#[derive(Clone, Debug, PartialEq, Eq)]
pub struct ReadStreamEvents {
    pub stream: String,
    pub max_count: i32,
    pub revision: Revision<u64>,
    pub require_master: bool,
    pub resolve_link_tos: bool,
    pub direction: ReadDirection,
    pub creds: Option<Credentials>,
}

impl ReadStreamEvents {
    /// A read of `stream` forward from its beginning.
    pub open spec fn fresh(stream: String) -> ReadStreamEvents {
        ReadStreamEvents {
            stream,
            max_count: 500,
            revision: Revision::Start,
            require_master: false,
            resolve_link_tos: false,
            direction: ReadDirection::Forward,
            creds: None,
        }
    }

    /// The call that reads `count` events.
    pub open spec fn call(self, count: u64) -> Call<ReadReq> {
        Call {
            message: plain_read(
                stream_source(self.stream, self.revision),
                self.resolve_link_tos,
                CountOption::Count(count),
                self.direction,
            ),
            require_master: self.require_master,
            credentials: self.creds,
        }
    }

    /// A read of `stream` forward from its beginning.
    pub fn new(stream: String) -> (r: ReadStreamEvents)
        ensures
            r == ReadStreamEvents::fresh(stream),
    {
        ReadStreamEvents {
            stream,
            max_count: 500,
            revision: Revision::Start,
            require_master: false,
            resolve_link_tos: false,
            direction: ReadDirection::Forward,
            creds: None,
        }
    }

    /// Asks the command to read forward (toward the end of the stream).
    /// That's the default behavior.
    pub fn forward(self) -> (r: Self)
        ensures
            r == (ReadStreamEvents { direction: ReadDirection::Forward, ..self }),
    {
        self.set_direction(ReadDirection::Forward)
    }

    /// Asks the command to read backward (toward the begining of the stream).
    pub fn backward(self) -> (r: Self)
        ensures
            r == (ReadStreamEvents { direction: ReadDirection::Backward, ..self }),
    {
        self.set_direction(ReadDirection::Backward)
    }

    fn set_direction(self, direction: ReadDirection) -> (r: Self)
        ensures
            r == (ReadStreamEvents { direction, ..self }),
    {
        ReadStreamEvents { direction, ..self }
    }

    /// Performs the command with the given credentials.
    pub fn credentials(self, value: Credentials) -> (r: Self)
        ensures
            r == (ReadStreamEvents { creds: Some(value), ..self }),
    {
        ReadStreamEvents { creds: Some(value), ..self }
    }

    /// Performs the command with the given credentials, or with none.
    pub fn set_credentials(self, creds: Option<Credentials>) -> (r: Self)
        ensures
            r == (ReadStreamEvents { creds, ..self }),
    {
        ReadStreamEvents { creds, ..self }
    }

    /// Max batch size.
    pub fn max_count(self, max_count: i32) -> (r: Self)
        ensures
            r == (ReadStreamEvents { max_count, ..self }),
    {
        ReadStreamEvents { max_count, ..self }
    }

    /// Starts the read at the given event number. By default, it starts at
    /// 0.
    pub fn start_from(self, start: u64) -> (r: Self)
        ensures
            r == (ReadStreamEvents { revision: Revision::Exact(start), ..self }),
    {
        ReadStreamEvents { revision: Revision::Exact(start), ..self }
    }

    /// Starts the read from the beginning of the stream. It also set the read
    /// direction to `Forward`.
    pub fn start_from_beginning(self) -> (r: Self)
        ensures
            r == (ReadStreamEvents {
                revision: Revision::Start,
                direction: ReadDirection::Forward,
                ..self
            }),
    {
        ReadStreamEvents { revision: Revision::Start, direction: ReadDirection::Forward, ..self }
    }

    /// Starts the read from the end of the stream. It also set the read
    /// direction to `Backward`.
    pub fn start_from_end_of_stream(self) -> (r: Self)
        ensures
            r == (ReadStreamEvents {
                revision: Revision::End,
                direction: ReadDirection::Backward,
                ..self
            }),
    {
        ReadStreamEvents { revision: Revision::End, direction: ReadDirection::Backward, ..self }
    }

    /// Asks the server receiving the command to be the master of the cluster
    /// in order to perform the write. Default: `false`.
    pub fn require_master(self, require_master: bool) -> (r: Self)
        ensures
            r == (ReadStreamEvents { require_master, ..self }),
    {
        ReadStreamEvents { require_master, ..self }
    }

    /// When using projections, you can have links placed into another stream.
    /// With `LinkTos::ResolveLink`, the server will resolve those links and will
    /// return the event that the link points to. Default: `LinkTos::NoResolution`.
    pub fn resolve_link_tos(self, tos: LinkTos) -> (r: Self)
        ensures
            r == (ReadStreamEvents { resolve_link_tos: tos.resolves(), ..self }),
    {
        let resolve_link_tos = tos.raw_resolve_lnk_tos();
        ReadStreamEvents { resolve_link_tos, ..self }
    }

    /// The call that reads `count` events.
    pub fn request(self, count: u64) -> (r: Call<ReadReq>)
        ensures
            r == self.call(count),
    {
        let stream_options = StreamOptions {
            stream_name: self.stream,
            revision_option: Some(convert_revision(self.revision)),
        };
        let message = make_plain_read(
            StreamOption::Stream(stream_options),
            self.resolve_link_tos,
            CountOption::Count(count),
            self.direction,
        );
        Call { message, require_master: self.require_master, credentials: self.creds }
    }
}

/// Like `ReadStreamEvents` but specialized to system stream '$all'.
#[derive(Clone, Debug, PartialEq, Eq)]
pub struct ReadAllEvents {
    pub max_count: i32,
    pub revision: Revision<Position>,
    pub require_master: bool,
    pub resolve_link_tos: bool,
    pub direction: ReadDirection,
    pub creds: Option<Credentials>,
}

impl ReadAllEvents {
    /// A read of the transaction log forward from its beginning.
    pub open spec fn fresh() -> ReadAllEvents {
        ReadAllEvents {
            max_count: 500,
            revision: Revision::Start,
            require_master: false,
            resolve_link_tos: false,
            direction: ReadDirection::Forward,
            creds: None,
        }
    }

    /// The call that reads `count` events.
    pub open spec fn call(self, count: u64) -> Call<ReadReq> {
        Call {
            message: plain_read(
                log_source(self.revision),
                self.resolve_link_tos,
                CountOption::Count(count),
                self.direction,
            ),
            require_master: self.require_master,
            credentials: self.creds,
        }
    }

    /// A read of the transaction log forward from its beginning.
    pub fn new() -> (r: ReadAllEvents)
        ensures
            r == ReadAllEvents::fresh(),
    {
        ReadAllEvents {
            max_count: 500,
            revision: Revision::Start,
            require_master: false,
            resolve_link_tos: false,
            direction: ReadDirection::Forward,
            creds: None,
        }
    }

    /// Asks the command to read forward (toward the end of the stream).
    /// That's the default behavior.
    pub fn forward(self) -> (r: Self)
        ensures
            r == (ReadAllEvents { direction: ReadDirection::Forward, ..self }),
    {
        self.set_direction(ReadDirection::Forward)
    }

    /// Asks the command to read backward (toward the begining of the stream).
    pub fn backward(self) -> (r: Self)
        ensures
            r == (ReadAllEvents { direction: ReadDirection::Backward, ..self }),
    {
        self.set_direction(ReadDirection::Backward)
    }

    fn set_direction(self, direction: ReadDirection) -> (r: Self)
        ensures
            r == (ReadAllEvents { direction, ..self }),
    {
        ReadAllEvents { direction, ..self }
    }

    /// Performs the command with the given credentials.
    pub fn credentials(self, value: Credentials) -> (r: Self)
        ensures
            r == (ReadAllEvents { creds: Some(value), ..self }),
    {
        ReadAllEvents { creds: Some(value), ..self }
    }

    /// Max batch size.
    pub fn max_count(self, max_count: i32) -> (r: Self)
        ensures
            r == (ReadAllEvents { max_count, ..self }),
    {
        ReadAllEvents { max_count, ..self }
    }

    /// Starts the read at the given position. By default, it starts at
    /// the beginning of the transaction log.
    pub fn start_from(self, start: Position) -> (r: Self)
        ensures
            r == (ReadAllEvents { revision: Revision::Exact(start), ..self }),
    {
        let revision = Revision::Exact(start);
        ReadAllEvents { revision, ..self }
    }

    /// Starts the read from the beginning of the stream. It also set the read
    /// direction to `Forward`.
    pub fn start_from_beginning(self) -> (r: Self)
        ensures
            r == (ReadAllEvents {
                revision: Revision::Start,
                direction: ReadDirection::Forward,
                ..self
            }),
    {
        let revision = Revision::Start;
        let direction = ReadDirection::Forward;
        ReadAllEvents { revision, direction, ..self }
    }

    /// Starts the read from the end of the stream. It also set the read
    /// direction to `Backward`.
    pub fn start_from_end_of_stream(self) -> (r: Self)
        ensures
            r == (ReadAllEvents {
                revision: Revision::End,
                direction: ReadDirection::Backward,
                ..self
            }),
    {
        let revision = Revision::End;
        let direction = ReadDirection::Backward;
        ReadAllEvents { revision, direction, ..self }
    }

    /// Asks the server receiving the command to be the master of the cluster
    /// in order to perform the write. Default: `false`.
    pub fn require_master(self, require_master: bool) -> (r: Self)
        ensures
            r == (ReadAllEvents { require_master, ..self }),
    {
        ReadAllEvents { require_master, ..self }
    }

    /// When using projections, you can have links placed into another stream.
    /// With `LinkTos::ResolveLink`, the server will resolve those links and will
    /// return the event that the link points to. Default: `LinkTos::NoResolution`.
    pub fn resolve_link_tos(self, tos: LinkTos) -> (r: Self)
        ensures
            r == (ReadAllEvents { resolve_link_tos: tos.resolves(), ..self }),
    {
        let resolve_link_tos = tos.raw_resolve_lnk_tos();
        ReadAllEvents { resolve_link_tos, ..self }
    }

    /// The call that reads `count` events.
    pub fn request(self, count: u64) -> (r: Call<ReadReq>)
        ensures
            r == self.call(count),
    {
        let stream_options = AllOptions { all_option: Some(convert_log_revision(self.revision)) };
        let message = make_plain_read(
            StreamOption::All(stream_options),
            self.resolve_link_tos,
            CountOption::Count(count),
            self.direction,
        );
        Call { message, require_master: self.require_master, credentials: self.creds }
    }
}

} // verus!
