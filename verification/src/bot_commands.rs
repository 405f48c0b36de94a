//! The commands of the bot: which part of it deals with what comes in, and
//! what each does, step by step, with what the user sends and with what
//! Telegram and the database answer.

pub mod commands;
pub mod handlers;
pub mod replies;
pub mod states;
