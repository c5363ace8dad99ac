//! Lifecycle engine for interactive remote shell sessions.
//!
//! The crate holds the decisions of a session's life and none of its I/O:
//! which tasks exist, what each worker does with the result of a read, a
//! write or a setup step, which notifications go out and in what order. The
//! caller performs the actions it is handed and reports what happened.

pub mod commands;
pub mod directory;
pub mod events;
pub mod reader;
pub mod registry;
pub mod response;
pub mod session;
pub mod text;
pub mod trace;
pub mod writer;
