use vstd::prelude::*;

verus! {

/// Somebody who has talked to the bot.
#[derive(Debug, Clone, PartialEq, Eq)]
pub struct User {
    /// Telegram id of the user.
    pub tg_id: i64,
    /// When the record was made, in seconds since the Unix epoch.
    pub created: i64,
}

} // verus!
