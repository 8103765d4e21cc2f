//! A personal log of surf sessions: the session record and its builder, the
//! store that keeps sessions in a SQLite file, and the command-line grammar
//! and prompt answers of its front end.

pub mod cli;
pub mod config;
pub mod datetime;
pub mod prompt;
pub mod session;
pub mod sqlite;
pub mod store;
