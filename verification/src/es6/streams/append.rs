//! Messages of a write.
use vstd::prelude::*;

use crate::es6::streams::{ExpectedStreamRevision, PositionOption, Uuid};
use crate::metadata::Metadata;

verus! {

/// One message of the request: the options first, then one for each event.
#[derive(Debug)]
pub struct AppendReq {
    pub content: Option<Content>,
}

#[derive(Debug)]
pub enum Content {
    Options(Options),
    ProposedMessage(ProposedMessage),
}

/// Which stream is written to, and what it has to look like.
#[derive(Clone, Debug, PartialEq, Eq)]
pub struct Options {
    pub stream_name: String,
    pub expected_stream_revision: Option<ExpectedStreamRevision>,
}

/// An event to be written.
#[derive(Debug)]
pub struct ProposedMessage {
    pub id: Option<Uuid>,
    pub metadata: Metadata,
    pub custom_metadata: Vec<u8>,
    pub data: Vec<u8>,
}

/// The reply.
#[derive(Clone, Copy, Debug, PartialEq, Eq)]
pub struct AppendResp {
    pub current_revision_option: Option<CurrentRevisionOption>,
    pub position_option: Option<PositionOption>,
}

/// The revision that the stream is at after the write.
#[derive(Clone, Copy, Debug, PartialEq, Eq)]
pub enum CurrentRevisionOption {
    CurrentRevision(u64),
    NoStream,
}

} // verus!
