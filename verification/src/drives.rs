//! The backends a hierarchy can be kept on.

pub mod discord;
