//! Client commands for an EventStore database: how a command becomes a request
//! of the gRPC protocol, and how a reply becomes a value of this library.
pub mod es6;
pub mod ids;
pub mod metadata;
pub mod types;
pub mod value_laws;
