//! Sticker packs: naming, paging and the texts shown to the user.

pub mod common;
pub mod constants;
pub mod numbers;
pub mod texts;
