//! A request together with the terms it is made on.
use vstd::prelude::*;

use crate::types::Credentials;

verus! {

/// A message for the server, and what the transport has to see to.
#[derive(Debug)]
pub struct Call<M> {
    pub message: M,
    /// Whether the server that receives the message has to be the master of the
    /// cluster.
    pub require_master: bool,
    /// Whom the message is sent for.
    pub credentials: Option<Credentials>,
}

} // verus!
