//! What can be wrong with a reply.
use vstd::prelude::*;

verus! {

/// Why a reply of the server cannot be turned into a value.
#[derive(Clone, Copy, Debug, PartialEq, Eq)]
pub enum ReplyFault {
    /// A read answered with no event.
    MissingEvent,
    /// An event has no identifier.
    MissingId,
    /// The identifier of an event is empty.
    MissingIdValue,
    /// The identifier of an event is not written as text.
    StructuredId,
    /// The identifier of an event is a text that denotes none.
    MalformedId,
    /// The `is-json` metadata of an event is neither `true` nor `false`.
    UnknownJsonFlag,
    /// A write was answered without the revision of the stream.
    MissingRevision,
    /// A write was answered without a position.
    MissingPosition,
}

} // verus!
