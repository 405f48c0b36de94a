use vstd::prelude::*;

verus! {

/// Minutes after which the connection of the Telegram application is made
/// anew.
pub const CLIENT_LIFETIME_MINUTES: i64 = 10;

/// What to do with the connection of the Telegram application before an
/// update is handled.
#[derive(Debug, Clone, Copy, PartialEq, Eq, Structural)]
pub enum ClientAction {
    /// Hand the commands the connection that is there.
    Reuse,
    /// Connect anew, keep the new connection and hand it to the commands.
    Reconnect,
}

/// Decide what to do with a connection that was made `elapsed_minutes`
/// ago: one that is ten minutes old or older is made anew.
pub fn client_action(elapsed_minutes: i64) -> (action: ClientAction)
    ensures
        action == if elapsed_minutes >= CLIENT_LIFETIME_MINUTES {
            ClientAction::Reconnect
        } else {
            ClientAction::Reuse
        },
{
    if elapsed_minutes >= CLIENT_LIFETIME_MINUTES {
        ClientAction::Reconnect
    } else {
        ClientAction::Reuse
    }
}

} // verus!
