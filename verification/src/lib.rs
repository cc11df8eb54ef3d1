//! A hierarchical file store whose bytes live as messages in a chat channel.
//!
//! The library holds the engine: the metadata index that mirrors the
//! directory hierarchy, the object model of the remote blob client, the
//! cached file session that reconciles an in-memory copy with its remote
//! counterpart, and the virtual filesystem that resolves paths against the
//! index. Everything that suspends (the database file, the HTTP transport)
//! is performed by the caller, which hands the outcome back as plain values.

pub mod cursor;
pub mod db;
pub mod drives;
pub mod error;
pub mod laws;
pub mod paths;
pub mod text;
pub mod types;
pub mod utils;
