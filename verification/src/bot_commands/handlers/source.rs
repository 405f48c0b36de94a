use vstd::prelude::*;
use crate::bot_commands::handlers::common::{says, Call, Reply, Step};
use crate::bot_commands::states::{idle, Conversation};

verus! {

/// Tell where the bot's source code is: whatever went on before is over.
pub fn source_handler(conversation: &mut Conversation) -> (step: Step)
    ensures
        *final(conversation) == idle(),
        says(step, Reply::Source),
{
    conversation.finish();
    Step::Call(Call::SendMessage { reply: Reply::Source, quote: false })
}

} // verus!
