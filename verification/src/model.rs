//! Data model: identifiers, users, members, command metadata, and the
//! decoded invocation consumed by filters.

pub mod command;
pub mod interaction;
pub mod member;
pub mod snowflake;
pub mod user;
