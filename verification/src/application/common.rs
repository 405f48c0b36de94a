pub mod exceptions;
pub mod traits;
