pub mod dto;
pub mod exceptions;
