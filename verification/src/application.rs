//! What the bot does with its records, apart from where they are kept.

pub mod commands;
pub mod common;
pub mod set;
pub mod user;
