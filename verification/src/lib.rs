//! Conversation persistence and context assembly for a terminal chat client.
//!
//! The client keeps its conversations in a SQLite database and sends a
//! bounded part of a conversation's history with every prompt. This library
//! holds what the client decides and computes:
//!
//! - [`schema`] brings a store to the latest schema version;
//! - [`store`] adds and lists conversations, messages and error log entries;
//! - [`context`] chooses the history that accompanies a prompt;
//! - [`session`] runs the turns of a session;
//! - [`response`] decides what the completion service answered;
//! - [`model`] states what is expected of the store.
//!
//! Reading lines, sending requests and opening files is left to the caller.

pub mod config;
pub mod context;
pub mod error;
pub mod json;
pub mod model;
pub mod response;
pub mod schema;
pub mod session;
pub mod sql;
pub mod store;
pub mod text;
pub mod time;
pub mod types;
