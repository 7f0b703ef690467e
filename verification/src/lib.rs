//! A personal tracker of what was listened to: artists, their releases, and
//! logs that say when a release was played.
pub mod bootstrap;
pub mod cli;
pub mod clock;
pub mod error;
pub mod handlers;
pub mod model;
pub mod order;
pub mod repo;
pub mod sql;
pub mod store;
pub mod text;
