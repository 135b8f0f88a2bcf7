//! Values that commands are made of, whatever the protocol.
use vstd::prelude::*;

verus! {

/// Which way a stream is read.
#[derive(Clone, Copy, Debug, PartialEq, Eq)]
pub enum ReadDirection {
    /// Toward the end of the stream.
    Forward,
    /// Toward the beginning of the stream.
    Backward,
}

/// What the server does with events that point to an event of another stream.
#[derive(Clone, Copy, Debug, PartialEq, Eq)]
pub enum LinkTos {
    /// It hands out the event that the link points to.
    ResolveLink,
    /// It hands out the link itself.
    NoResolution,
}

impl LinkTos {
    /// Whether links are resolved.
    pub open spec fn resolves(self) -> bool {
        self is ResolveLink
    }

    /// Whether links are resolved, as the protocol writes it.
    pub fn raw_resolve_lnk_tos(self) -> (r: bool)
        ensures
            r == self.resolves(),
    {
        match self {
            LinkTos::ResolveLink => true,
            LinkTos::NoResolution => false,
        }
    }
}

/// How a persistent subscription hands its events to its consumers.
#[derive(Clone, Copy, Debug, PartialEq, Eq)]
pub enum SystemConsumerStrategy {
    /// All events to one consumer, as long as it can take them.
    DispatchToSingle,
    /// To each consumer in turn.
    RoundRobin,
    /// Events of one stream to one consumer.
    Pinned,
}

/// A login and its password.
#[derive(Debug, PartialEq, Eq)]
pub struct Credentials {
    pub login: String,
    pub password: String,
}

impl Clone for Credentials {
    fn clone(&self) -> (r: Credentials)
        ensures
            r == *self,
    {
        Credentials { login: self.login.clone(), password: self.password.clone() }
    }
}

/// The content of an event.
#[derive(Clone, Debug, PartialEq, Eq)]
pub enum Payload {
    /// The bytes are a JSON text.
    Json(Vec<u8>),
    /// The bytes are anything else.
    Binary(Vec<u8>),
}

impl Payload {
    /// The bytes of the content.
    pub open spec fn bytes(self) -> Seq<u8> {
        match self {
            Payload::Json(bytes) => bytes@,
            Payload::Binary(bytes) => bytes@,
        }
    }

    /// Whether the content is JSON.
    pub fn is_json(&self) -> (r: bool)
        ensures
            r == (self is Json),
    {
        match self {
            Payload::Json(_) => true,
            Payload::Binary(_) => false,
        }
    }

    /// The bytes of the content.
    pub fn into_inner(self) -> (r: Vec<u8>)
        ensures
            r@ == self.bytes(),
    {
        match self {
            Payload::Json(bytes) => bytes,
            Payload::Binary(bytes) => bytes,
        }
    }
}

/// A span of time, in whole seconds and nanoseconds.
#[derive(Clone, Copy, Debug, PartialEq, Eq)]
pub struct Duration {
    pub secs: u64,
    pub nanos: u32,
}

impl View for Duration {
    type V = nat;

    /// The length of the span, in nanoseconds.
    open spec fn view(&self) -> nat {
        (self.secs * 1_000_000_000 + self.nanos) as nat
    }
}

impl Duration {
    /// A span of whole seconds.
    pub fn from_secs(secs: u64) -> (r: Duration)
        ensures
            r == (Duration { secs, nanos: 0 }),
    {
        Duration { secs, nanos: 0 }
    }

    /// The whole milliseconds of the span.
    pub fn as_millis(&self) -> (r: u128)
        ensures
            r == self@ / 1_000_000,
    {
        self.secs as u128 * 1_000 + self.nanos as u128 / 1_000_000
    }
}

} // verus!
