pub mod models;
pub mod repositories;
