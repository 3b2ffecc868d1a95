//! A declarative framework for chat-bot command handlers.
//!
//! Commands are assembled from small, composable *filters*: units that
//! extract a typed value from the current invocation, or reject it.
//! Filters combine with AND / OR / MAP / AND_THEN / RECOVER operators;
//! a failed branch reports its cause through a combinable [`reject::Rejection`]
//! rather than aborting the whole match.

pub mod arg;
pub mod command;
pub mod context;
pub mod dispatch;
pub mod filter;
pub mod model;
pub mod reject;
pub mod rest;
pub mod text;

pub use crate::context::Context;
pub use crate::filter::Filter;

