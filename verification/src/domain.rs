//! What the bot keeps records of.

pub mod entities;
