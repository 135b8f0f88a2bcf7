//! The messages of the `event_store.client.streams` package.
use vstd::prelude::*;

pub mod append;
pub mod delete;
pub mod read;

verus! {

/// An identifier as a message holds it.
#[derive(Clone, Debug, PartialEq, Eq)]
pub struct Uuid {
    pub value: Option<UuidValue>,
}

/// The two ways in which a message writes an identifier.
#[derive(Clone, Debug, PartialEq, Eq)]
pub enum UuidValue {
    Structured(StructuredUuid),
    String(String),
}

/// An identifier in two halves.
#[derive(Clone, Copy, Debug, PartialEq, Eq)]
pub struct StructuredUuid {
    pub most_significant_bits: i64,
    pub least_significant_bits: i64,
}

/// What a stream has to look like for a request on it to be carried out.
#[derive(Clone, Copy, Debug, PartialEq, Eq)]
pub enum ExpectedStreamRevision {
    Revision(u64),
    NoStream,
    Any,
    StreamExists,
}

/// A place in the transaction log.
#[derive(Clone, Copy, Debug, PartialEq, Eq)]
pub struct LogPosition {
    pub commit_position: u64,
    pub prepare_position: u64,
}

/// Where in the transaction log a request was carried out, if the server says so.
#[derive(Clone, Copy, Debug, PartialEq, Eq)]
pub enum PositionOption {
    Position(LogPosition),
    Empty,
}

} // verus!
