use vstd::prelude::*;
use crate::bot_commands::handlers::common::{Call, Reply, Step};
use crate::bot_commands::states::{idle, Conversation};

verus! {

/// Greet the user by their first name: whatever went on before is over,
/// and the bot sends the list of its commands.
pub fn start_handler(conversation: &mut Conversation, user_first_name: &str) -> (step: Step)
    ensures
        *final(conversation) == idle(),
        step matches Step::Call(Call::SendMessage { reply, quote }) && !quote && (
        reply matches Reply::Start { first_name } && first_name@ == user_first_name@),
{
    conversation.finish();
    Step::Call(
        Call::SendMessage {
            reply: Reply::Start { first_name: String::from_str(user_first_name) },
            quote: false,
        },
    )
}

} // verus!
