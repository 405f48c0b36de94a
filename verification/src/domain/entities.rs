pub mod set;
pub mod sticker;
pub mod user;
