//! What each command does. A command that needs outside work is a value
//! that stands for how far it has come: beginning it gives that value and
//! the first piece of work, and handing in what came of the work gives the
//! next, until the command ends.

pub mod add_stickers;
pub mod cancel;
pub mod common;
pub mod my_stickers;
pub mod source;
pub mod start;
pub mod steal;
pub mod steal_sticker_set;
