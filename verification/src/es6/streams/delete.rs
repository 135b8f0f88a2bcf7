//! Messages of the two kinds of deletion.
use vstd::prelude::*;

use crate::es6::streams::{ExpectedStreamRevision, PositionOption};

verus! {

/// Which stream is deleted, and what it has to look like.
#[derive(Clone, Debug, PartialEq, Eq)]
pub struct Options {
    pub stream_name: String,
    pub expected_stream_revision: Option<ExpectedStreamRevision>,
}

/// The request of a soft deletion.
#[derive(Clone, Debug, PartialEq, Eq)]
pub struct DeleteReq {
    pub options: Option<Options>,
}

/// The reply to a soft deletion.
#[derive(Clone, Copy, Debug, PartialEq, Eq)]
pub struct DeleteResp {
    pub position_option: Option<PositionOption>,
}

/// The request of a hard deletion.
#[derive(Clone, Debug, PartialEq, Eq)]
pub struct TombstoneReq {
    pub options: Option<Options>,
}

/// The reply to a hard deletion.
#[derive(Clone, Copy, Debug, PartialEq, Eq)]
pub struct TombstoneResp {
    pub position_option: Option<PositionOption>,
}

} // verus!
