//! The commands that follow a stream from a place of the caller's choosing.
use vstd::prelude::*;

use crate::es6::call::Call;
use crate::es6::commands::convert::{convert_read_resp, read_as, read_resp_fault};
use crate::es6::commands::read::{
    convert_log_revision, convert_revision, log_source, make_plain_read, plain_read,
    stream_source,
};
use crate::es6::streams::read::{
    AllOptions, CountOption, ReadReq, ReadResp, StreamOption, StreamOptions,
};
use crate::es6::types::{Position, ResolvedEvent, Revision};
use crate::types::{Credentials, LinkTos, ReadDirection};

verus! {

/// Where a subscription sets in: at the place given, or at the beginning.
pub open spec fn starting_point<A>(start: Option<A>) -> Revision<A> {
    match start {
        Some(start) => Revision::Exact(start),
        None => Revision::Start,
    }
}

/// An error that stands in place of a message of the server.
#[derive(Clone, Copy, Debug, PartialEq, Eq)]
pub struct ErrorStatus {
    /// The gRPC status code.
    pub code: i32,
    /// Whether the error arose in the connection, and was not sent by the
    /// server. The code does not tell: a lost connection shows as unknown,
    /// unavailable or cancelled, and a server may send each of these.
    pub from_connection: bool,
}

impl ErrorStatus {
    /// Whether the connection to the server is lost. An error that the server
    /// sends comes over a connection that holds, whatever its code.
    pub open spec fn is_drop(self) -> bool {
        self.from_connection
    }
}

/// What happens to an open subscription.
#[derive(Debug)]
pub enum SubscriptionSignal {
    /// A message came from the server.
    Received(ReadResp),
    /// The stream of messages broke off with this error.
    Failed(ErrorStatus),
    /// The call that was to open the subscription anew came to this error.
    Refused(ErrorStatus),
    /// The server ended the stream of messages.
    Ended,
}

/// What an open subscription does next.
#[derive(Debug)]
pub enum SubscriptionStep {
    /// It hands out an event.
    Deliver(ResolvedEvent),
    /// It is opened anew by this call.
    Reopen(Call<ReadReq>),
    /// It hands out the error with this gRPC status code, and is over.
    Fail(i32),
    /// It is over.
    End,
}

impl SubscriptionStep {
    /// Whether the subscription is still there after the step.
    pub open spec fn continues(self) -> bool {
        self is Deliver || self is Reopen
    }

    /// Whether the subscription is still there after the step.
    pub fn goes_on(&self) -> (r: bool)
        ensures
            r == self.continues(),
    {
        match self {
            SubscriptionStep::Deliver(_) => true,
            SubscriptionStep::Reopen(_) => true,
            SubscriptionStep::Fail(_) => false,
            SubscriptionStep::End => false,
        }
    }
}

/// Whether `step` is what a subscription that `opening` opened does upon
/// `error`: where the connection is lost, the subscription is opened by the
/// very call that opened it first, from the same place; any other error is
/// handed out.
pub open spec fn answers_error(
    opening: Call<ReadReq>,
    error: ErrorStatus,
    step: SubscriptionStep,
) -> bool {
    if error.is_drop() {
        step == SubscriptionStep::Reopen(opening)
    } else {
        step == SubscriptionStep::Fail(error.code)
    }
}

/// Whether `step` is what a subscription that `opening` opened does upon
/// `signal`: each message becomes an event, a lost connection is opened again,
/// any other error is handed out, and the end of the messages is its end.
pub open spec fn answers(
    opening: Call<ReadReq>,
    signal: SubscriptionSignal,
    step: SubscriptionStep,
) -> bool {
    match signal {
        SubscriptionSignal::Received(resp) => {
            &&& step matches SubscriptionStep::Deliver(value)
            &&& resp.event matches Some(event) && read_as(event, value)
        },
        SubscriptionSignal::Failed(error) => answers_error(opening, error, step),
        SubscriptionSignal::Refused(error) => answers_error(opening, error, step),
        SubscriptionSignal::Ended => step == SubscriptionStep::End,
    }
}

fn copy_credentials(creds: &Option<Credentials>) -> (r: Option<Credentials>)
    ensures
        r == *creds,
{
    match creds {
        Some(creds) => Some(creds.clone()),
        None => None,
    }
}

/// Subscribes to a given stream. This kind of subscription specifies a
/// starting point (by default, the beginning of a stream). For a regular
/// stream, that starting point will be an event number. For the system
/// stream `$all`, it will be a position in the transaction file
/// (see `AllCatchupSubscribe`). This subscription will fetch every event
/// until the end of the stream, then will dispatch subsequently written
/// events.
///
/// For example, if a starting point of 50 is specified when a stream has
/// 100 events in it, the subscriber can expect to see events 51 through
/// 100, and then any events subsequently written events until such time
/// as the subscription is dropped or closed.
///
/// Catchup subscriptions are resilient to connection drops: when the connection
/// drops, the catching up phase is restarted from its beginning, without the
/// user having to do anything.
#[derive(Clone, Debug, PartialEq, Eq)]
pub struct RegularCatchupSubscribe {
    pub stream_id: String,
    pub resolve_link_tos: bool,
    pub require_master: bool,
    pub batch_size: i32,
    pub revision: Option<u64>,
    pub creds_opt: Option<Credentials>,
}

impl RegularCatchupSubscribe {
    /// A subscription to `stream_id` from its beginning.
    pub open spec fn fresh(stream_id: String) -> RegularCatchupSubscribe {
        RegularCatchupSubscribe {
            stream_id,
            resolve_link_tos: false,
            require_master: false,
            batch_size: 500,
            revision: None,
            creds_opt: None,
        }
    }

    /// The call that opens the subscription.
    pub open spec fn call(self) -> Call<ReadReq> {
        Call {
            message: plain_read(
                stream_source(self.stream_id, starting_point(self.revision)),
                self.resolve_link_tos,
                CountOption::Subscription,
                ReadDirection::Forward,
            ),
            require_master: self.require_master,
            credentials: self.creds_opt,
        }
    }

    /// A subscription to `stream_id` from its beginning.
    pub fn new(stream_id: String) -> (r: RegularCatchupSubscribe)
        ensures
            r == RegularCatchupSubscribe::fresh(stream_id),
    {
        RegularCatchupSubscribe {
            stream_id,
            resolve_link_tos: false,
            require_master: false,
            batch_size: 500,
            revision: None,
            creds_opt: None,
        }
    }

    /// When using projections, you can have links placed into another stream.
    /// With `LinkTos::ResolveLink`, the server will resolve those links and will
    /// return the event that the link points to. Default: `LinkTos::NoResolution`.
    pub fn resolve_link_tos(self, tos: LinkTos) -> (r: Self)
        ensures
            r == (RegularCatchupSubscribe { resolve_link_tos: tos.resolves(), ..self }),
    {
        let resolve_link_tos = tos.raw_resolve_lnk_tos();
        RegularCatchupSubscribe { resolve_link_tos, ..self }
    }

    /// Asks the server receiving the command to be the master of the cluster
    /// in order to perform the write. Default: `false`.
    pub fn require_master(self, require_master: bool) -> (r: Self)
        ensures
            r == (RegularCatchupSubscribe { require_master, ..self }),
    {
        RegularCatchupSubscribe { require_master, ..self }
    }

    /// For example, if a starting point of 50 is specified when a stream has
    /// 100 events in it, the subscriber can expect to see events 51 through
    /// 100, and then any events subsequently written events until such time
    /// as the subscription is dropped or closed.
    ///
    /// By default, it will start from the event number 0.
    pub fn start_position(self, start_pos: u64) -> (r: Self)
        ensures
            r == (RegularCatchupSubscribe { revision: Some(start_pos), ..self }),
    {
        let revision = Some(start_pos);
        RegularCatchupSubscribe { revision, ..self }
    }

    /// Performs the command with the given credentials.
    pub fn credentials(self, creds: Credentials) -> (r: Self)
        ensures
            r == (RegularCatchupSubscribe { creds_opt: Some(creds), ..self }),
    {
        RegularCatchupSubscribe { creds_opt: Some(creds), ..self }
    }

    /// The call that opens the subscription. It goes forward, and has no end.
    pub fn request(&self) -> (r: Call<ReadReq>)
        ensures
            r == self.call(),
    {
        let revision = match self.revision {
            Some(revision) => Revision::Exact(revision),
            None => Revision::Start,
        };
        let stream_options = StreamOptions {
            stream_name: self.stream_id.clone(),
            revision_option: Some(convert_revision(revision)),
        };
        let message = make_plain_read(
            StreamOption::Stream(stream_options),
            self.resolve_link_tos,
            CountOption::Subscription,
            ReadDirection::Forward,
        );
        Call {
            message,
            require_master: self.require_master,
            credentials: copy_credentials(&self.creds_opt),
        }
    }

    /// What an open subscription does next. A dropped connection does not end
    /// it: it starts over. Any other error, and the end of the messages, do.
    pub fn step(&self, signal: SubscriptionSignal) -> (r: SubscriptionStep)
        requires
            signal matches SubscriptionSignal::Received(resp) ==> read_resp_fault(resp) is None,
        ensures
            answers(self.call(), signal, r),
    {
        match signal {
            SubscriptionSignal::Received(resp) => SubscriptionStep::Deliver(convert_read_resp(resp)),
            SubscriptionSignal::Failed(error) => self.after_error(error),
            SubscriptionSignal::Refused(error) => self.after_error(error),
            SubscriptionSignal::Ended => SubscriptionStep::End,
        }
    }

    /// What the subscription does upon an error.
    fn after_error(&self, error: ErrorStatus) -> (r: SubscriptionStep)
        ensures
            answers_error(self.call(), error, r),
    {
        if error.from_connection {
            SubscriptionStep::Reopen(self.request())
        } else {
            SubscriptionStep::Fail(error.code)
        }
    }
}

/// Like `RegularCatchupSubscribe` but specific to the system stream '$all'.
#[derive(Clone, Debug, PartialEq, Eq)]
pub struct AllCatchupSubscribe {
    pub resolve_link_tos: bool,
    pub require_master: bool,
    pub batch_size: i32,
    pub revision: Option<Position>,
    pub creds_opt: Option<Credentials>,
}

impl AllCatchupSubscribe {
    /// A subscription to the transaction log from its beginning.
    pub open spec fn fresh() -> AllCatchupSubscribe {
        AllCatchupSubscribe {
            resolve_link_tos: false,
            require_master: false,
            batch_size: 500,
            revision: None,
            creds_opt: None,
        }
    }

    /// The call that opens the subscription.
    pub open spec fn call(self) -> Call<ReadReq> {
        Call {
            message: plain_read(
                log_source(starting_point(self.revision)),
                self.resolve_link_tos,
                CountOption::Subscription,
                ReadDirection::Forward,
            ),
            require_master: self.require_master,
            credentials: self.creds_opt,
        }
    }

    /// A subscription to the transaction log from its beginning.
    pub fn new() -> (r: AllCatchupSubscribe)
        ensures
            r == AllCatchupSubscribe::fresh(),
    {
        AllCatchupSubscribe {
            resolve_link_tos: false,
            require_master: false,
            batch_size: 500,
            revision: None,
            creds_opt: None,
        }
    }

    /// When using projections, you can have links placed into another stream.
    /// With `LinkTos::ResolveLink`, the server will resolve those links and will
    /// return the event that the link points to. Default: `LinkTos::NoResolution`.
    pub fn resolve_link_tos(self, tos: LinkTos) -> (r: Self)
        ensures
            r == (AllCatchupSubscribe { resolve_link_tos: tos.resolves(), ..self }),
    {
        let resolve_link_tos = tos.raw_resolve_lnk_tos();
        AllCatchupSubscribe { resolve_link_tos, ..self }
    }

    /// Asks the server receiving the command to be the master of the cluster
    /// in order to perform the write. Default: `false`.
    pub fn require_master(self, require_master: bool) -> (r: Self)
        ensures
            r == (AllCatchupSubscribe { require_master, ..self }),
    {
        AllCatchupSubscribe { require_master, ..self }
    }

    /// Starting point in the transaction journal log. By default, it will start at
    /// `Revision::Start`.
    pub fn start_position(self, start_pos: Position) -> (r: Self)
        ensures
            r == (AllCatchupSubscribe { revision: Some(start_pos), ..self }),
    {
        let revision = Some(start_pos);
        AllCatchupSubscribe { revision, ..self }
    }

    /// Performs the command with the given credentials.
    pub fn credentials(self, creds: Credentials) -> (r: Self)
        ensures
            r == (AllCatchupSubscribe { creds_opt: Some(creds), ..self }),
    {
        AllCatchupSubscribe { creds_opt: Some(creds), ..self }
    }

    /// The call that opens the subscription. It goes forward, and has no end.
    pub fn request(&self) -> (r: Call<ReadReq>)
        ensures
            r == self.call(),
    {
        let revision = match self.revision {
            Some(position) => Revision::Exact(position),
            None => Revision::Start,
        };
        let stream_options = AllOptions { all_option: Some(convert_log_revision(revision)) };
        let message = make_plain_read(
            StreamOption::All(stream_options),
            self.resolve_link_tos,
            CountOption::Subscription,
            ReadDirection::Forward,
        );
        Call {
            message,
            require_master: self.require_master,
            credentials: copy_credentials(&self.creds_opt),
        }
    }

    /// What an open subscription does next. A dropped connection does not end
    /// it: it starts over. Any other error, and the end of the messages, do.
    pub fn step(&self, signal: SubscriptionSignal) -> (r: SubscriptionStep)
        requires
            signal matches SubscriptionSignal::Received(resp) ==> read_resp_fault(resp) is None,
        ensures
            answers(self.call(), signal, r),
    {
        match signal {
            SubscriptionSignal::Received(resp) => SubscriptionStep::Deliver(convert_read_resp(resp)),
            SubscriptionSignal::Failed(error) => self.after_error(error),
            SubscriptionSignal::Refused(error) => self.after_error(error),
            SubscriptionSignal::Ended => SubscriptionStep::End,
        }
    }

    /// What the subscription does upon an error.
    fn after_error(&self, error: ErrorStatus) -> (r: SubscriptionStep)
        ensures
            answers_error(self.call(), error, r),
    {
        if error.from_connection {
            SubscriptionStep::Reopen(self.request())
        } else {
            SubscriptionStep::Fail(error.code)
        }
    }
}

} // verus!
