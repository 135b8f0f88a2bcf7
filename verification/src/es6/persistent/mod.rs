//! The messages of the `event_store.client.persistent_subscriptions` package.
pub mod create;
pub mod delete;
pub mod read;
pub mod update;
