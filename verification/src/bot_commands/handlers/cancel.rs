use vstd::prelude::*;
use crate::bot_commands::handlers::add_stickers::{awaiting_stolen_set, chosen_set, collected};
use crate::bot_commands::handlers::common::{
    says, Call, Finish, HandlerError, Outcome, Reply, Step,
};
use crate::bot_commands::handlers::steal_sticker_set::awaiting_source;
use crate::bot_commands::states::{
    idle, AddStickerState, Context, Conversation, State, StealContext, StealStickerSetState,
};

verus! {

/// Cancel whatever command is under way: the conversation forgets its step
/// and everything it has collected, and the bot says that the command was
/// cancelled. What Telegram has already been made to do stays done.
pub fn cancel_handler(conversation: &mut Conversation) -> (step: Step)
    ensures
        *final(conversation) == idle(),
        says(step, Reply::LastCommandCanceled),
{
    conversation.finish();
    Step::Call(Call::SendMessage { reply: Reply::LastCommandCanceled, quote: false })
}

/// How the cancelling ends once its message is on its way: the update
/// reaches no other command.
pub open spec fn finish_after_cancel(outcome: Outcome) -> Finish {
    match outcome {
        Outcome::Sent(_) => Finish::Cancelled,
        Outcome::Failed(kind) => Finish::Failed(HandlerError::Telegram(kind)),
        _ => Finish::Failed(HandlerError::UnexpectedOutcome),
    }
}

/// End the cancelling.
pub fn after_cancel(outcome: Outcome) -> (finish: Finish)
    ensures
        finish == finish_after_cancel(outcome),
{
    match outcome {
        Outcome::Sent(_) => Finish::Cancelled,
        Outcome::Failed(kind) => Finish::Failed(HandlerError::Telegram(kind)),
        _ => Finish::Failed(HandlerError::UnexpectedOutcome),
    }
}

/// Cancelling wipes the slate. Whatever a conversation held when it was
/// cancelled, it then stands at no step and holds no value; the command
/// that copies a pack, begun next, waits for its first sticker and knows no
/// pack to copy; and the command that adds stickers, begun next, waits for
/// its first sticker, knows no pack to add to and has collected nothing.
pub proof fn lemma_cancel_wipes_the_slate(
    before: Conversation,
    cancelled: Conversation,
    copying: Conversation,
    adding: Conversation,
)
    requires
        cancelled == idle(),
        copying == awaiting_source(),
        awaiting_stolen_set(adding),
    ensures
        cancelled.state == State::Idle,
        cancelled.context == Context::Empty,
        collected(cancelled).len() == 0,
        chosen_set(cancelled) is None,
        copying.state == State::Steal(StealStickerSetState::StealStickerSetName),
        copying.context == Context::Steal(StealContext { steal_sticker_set_name: None }),
        adding.state == State::Add(AddStickerState::GetStolenStickerSet),
        collected(adding).len() == 0,
        chosen_set(adding) is None,
{
}

} // verus!
