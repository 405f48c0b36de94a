//! Where the records are kept: the statements sent to the database and the
//! reading of what it answers.

pub mod database;
