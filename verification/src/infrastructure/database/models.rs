pub mod set;
pub mod user;
