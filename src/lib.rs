//! Keeps an in-memory view of a compositor's workspaces in step with the
//! compositor, and turns its raw lifecycle events into typed updates.

pub mod client;
pub mod events;
pub mod store;
pub mod workspace;
