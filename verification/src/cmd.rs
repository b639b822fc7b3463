//! The command handlers.

pub mod history_cmd;
