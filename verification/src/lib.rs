//! Conversation flows, sticker pack replication and ownership bookkeeping of a
//! Telegram bot that copies sticker packs for its users.
//!
//! Every decision the bot takes is a function of this library: given what is
//! known so far and what the outside world just answered, it says what to do
//! next. Network, database and timers are left to the program around it.

pub mod application;
pub mod bot_commands;
pub mod config;
pub mod domain;
pub mod infrastructure;
pub mod middlewares;
pub mod stickers;
pub mod telegram_application;
