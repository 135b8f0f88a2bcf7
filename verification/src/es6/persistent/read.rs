//! The messages that connect a consumer to a persistent subscription.
use vstd::prelude::*;

verus! {

#[derive(Clone, Debug, PartialEq, Eq)]
pub struct ReadReq {
    pub content: Option<Content>,
}

#[derive(Clone, Debug, PartialEq, Eq)]
pub enum Content {
    Options(Options),
}

#[derive(Clone, Debug, PartialEq, Eq)]
pub struct Options {
    pub stream_name: String,
    pub group_name: String,
    pub buffer_size: i32,
    pub uuid_option: Option<UuidOption>,
}

/// The form in which the server writes identifiers.
#[derive(Clone, Copy, Debug, PartialEq, Eq)]
pub struct UuidOption {
    pub content: Option<UuidContent>,
}

#[derive(Clone, Copy, Debug, PartialEq, Eq)]
pub enum UuidContent {
    Structured,
    String,
}

} // verus!
