//! The message that deletes a persistent subscription.
use vstd::prelude::*;

verus! {

#[derive(Clone, Debug, PartialEq, Eq)]
pub struct DeleteReq {
    pub options: Option<Options>,
}

#[derive(Clone, Debug, PartialEq, Eq)]
pub struct Options {
    pub stream_name: String,
    pub group_name: String,
}

} // verus!
