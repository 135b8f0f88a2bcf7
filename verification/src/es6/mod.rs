//! The gRPC protocol.
pub mod builder_laws;
pub mod call;
pub mod commands;
pub mod fault;
pub mod laws;
pub mod persistent;
pub mod reply_laws;
pub mod request_laws;
pub mod streams;
pub mod types;
