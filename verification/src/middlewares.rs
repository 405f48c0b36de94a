//! What happens to every update before a command sees it.

pub mod client_application;
pub mod create_user;
pub mod deleted_sets;
