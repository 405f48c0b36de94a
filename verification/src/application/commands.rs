//! The commands that change the records. Each is one call of a repository
//! inside one transaction, and each ends the transaction by the same rule.

pub mod create_set;
pub mod create_user;
pub mod set_deleted_col;
