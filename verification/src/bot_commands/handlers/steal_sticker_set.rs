use vstd::prelude::*;
use crate::bot_commands::handlers::common::{
    after_send, after_work, answers, finish_after_send, finish_after_work, says, Call, Finish,
    HandlerError, Outcome, Reply, Step,
};
use crate::bot_commands::handlers::steal::{
    CreatedSet, Steal, StealPolicy, StealReport, StealStep,
};
use crate::bot_commands::states::{
    idle, Context, Conversation, MessageRef, State, StealContext, StealStickerSetState,
};
use crate::domain::entities::sticker::Sticker;
use crate::stickers::constants::{MAX_OWNER_LOOKUPS, TELEGRAM_STICKER_SET_URL};

verus! {

/// Longest title, in bytes, that a pack can have.
pub const MAX_TITLE_LENGTH: usize = 64;

/// A conversation that waits for a sticker of the pack to copy.
pub open spec fn awaiting_source() -> Conversation {
    Conversation {
        state: State::Steal(StealStickerSetState::StealStickerSetName),
        context: Context::Steal(StealContext { steal_sticker_set_name: None }),
    }
}

/// Begin the command that copies a pack: whatever went on before is over,
/// and the bot asks for a sticker of the pack to copy.
pub fn steal_sticker_set_handler(conversation: &mut Conversation) -> (step: Step)
    ensures
        *final(conversation) == awaiting_source(),
        says(step, Reply::SendStickerToSteal),
{
    conversation.finish();
    conversation.state = State::Steal(StealStickerSetState::StealStickerSetName);
    conversation.context = Context::Steal(StealContext { steal_sticker_set_name: None });
    Step::Call(Call::SendMessage { reply: Reply::SendStickerToSteal, quote: false })
}

/// Taking the sticker that shows which pack to copy: how far it has come.
#[derive(Debug)]
pub enum GetStickerSetName {
    /// Waiting for the owner of the pack; `failures` tries have failed.
    AwaitOwner { name: String, failures: u32 },
    /// Waiting for the last message to be sent.
    Closing,
    Over,
}

/// Take the sticker that shows which pack to copy. A sticker of no pack is
/// answered by asking again; for any other the bot asks Telegram who owns
/// the pack, to be sure that the pack can be found.
pub fn get_sticker_set_name(sticker: &Sticker) -> (begun: (GetStickerSetName, Step))
    ensures
        match sticker.set_name {
            None => begun.0 is Closing && says(begun.1, Reply::StickerWithoutPack),
            Some(set_name) => {
                &&& begun.0 matches GetStickerSetName::AwaitOwner { name, failures }
                &&& name@ == set_name@
                &&& failures == 0
                &&& begun.1 matches Step::Call(Call::GetStickerSetUserId { set_name: asked })
                &&& asked@ == set_name@
            },
        },
{
    match &sticker.set_name {
        None => (
            GetStickerSetName::Closing,
            Step::Call(Call::SendMessage { reply: Reply::StickerWithoutPack, quote: false }),
        ),
        Some(set_name) => (
            GetStickerSetName::AwaitOwner { name: set_name.clone(), failures: 0 },
            Step::Call(Call::GetStickerSetUserId { set_name: set_name.clone() }),
        ),
    }
}

impl GetStickerSetName {
    /// Whether `after`, `step` and the conversation `now` are what follows
    /// `self` and the conversation `before` once `outcome` has come in.
    ///
    /// When Telegram has named the owner, the conversation keeps the name
    /// of the pack and goes on to wait for the title of the new pack, for
    /// which the bot asks. A failed try is repeated until
    /// `MAX_OWNER_LOOKUPS` tries have failed; then, and when the time for
    /// all tries has run out, the bot says that it failed and the
    /// conversation stays where it is.
    pub open spec fn follows(
        self,
        before: Conversation,
        outcome: Outcome,
        after: Self,
        now: Conversation,
        step: Step,
    ) -> bool {
        match self {
            GetStickerSetName::AwaitOwner { name, failures } => match outcome {
                Outcome::StickerSetUserId(_) => {
                    &&& now.state == State::Steal(StealStickerSetState::CreateNewStickerSet)
                    &&& now.context matches Context::Steal(context)
                    &&& context.steal_sticker_set_name matches Some(kept)
                    &&& kept@ == name@
                    &&& after is Closing
                    &&& says(step, Reply::EnterNewTitle)
                },
                Outcome::Failed(_) => now == before && if failures + 1 < MAX_OWNER_LOOKUPS {
                    &&& after matches GetStickerSetName::AwaitOwner {
                        name: kept,
                        failures: counted,
                    }
                    &&& kept@ == name@
                    &&& counted == failures + 1
                    &&& step matches Step::Call(Call::GetStickerSetUserId { set_name })
                    &&& set_name@ == name@
                } else {
                    after is Closing && answers(step, Reply::OwnerLookupFailed)
                },
                _ => now == before && after is Closing && answers(
                    step,
                    Reply::OwnerLookupFailed,
                ),
            },
            GetStickerSetName::Closing => now == before && after is Over && step == Step::Finish(
                finish_after_send(outcome),
            ),
            GetStickerSetName::Over => now == before && after is Over && step == Step::Finish(
                Finish::Failed(HandlerError::UnexpectedOutcome),
            ),
        }
    }

    /// Take in what came of the latest call and say what to do next.
    pub fn resume(self, conversation: &mut Conversation, outcome: Outcome) -> (next: (
        GetStickerSetName,
        Step,
    ))
        ensures
            self.follows(*old(conversation), outcome, next.0, *final(conversation), next.1),
    {
        match self {
            GetStickerSetName::AwaitOwner { name, failures } => match outcome {
                Outcome::StickerSetUserId(_) => {
                    conversation.context = Context::Steal(
                        StealContext { steal_sticker_set_name: Some(name) },
                    );
                    conversation.state = State::Steal(StealStickerSetState::CreateNewStickerSet);
                    (
                        GetStickerSetName::Closing,
                        Step::Call(
                            Call::SendMessage { reply: Reply::EnterNewTitle, quote: false },
                        ),
                    )
                },
                Outcome::Failed(_) => {
                    if failures < MAX_OWNER_LOOKUPS - 1 {
                        let call: Call = Call::GetStickerSetUserId { set_name: name.clone() };
                        (
                            GetStickerSetName::AwaitOwner { name, failures: failures + 1 },
                            Step::Call(call),
                        )
                    } else {
                        (
                            GetStickerSetName::Closing,
                            Step::Call(
                                Call::SendMessage { reply: Reply::OwnerLookupFailed, quote: true },
                            ),
                        )
                    }
                },
                _ => (
                    GetStickerSetName::Closing,
                    Step::Call(Call::SendMessage { reply: Reply::OwnerLookupFailed, quote: true }),
                ),
            },
            GetStickerSetName::Closing => (
                GetStickerSetName::Over,
                Step::Finish(after_send(outcome)),
            ),
            GetStickerSetName::Over => (
                GetStickerSetName::Over,
                Step::Finish(Finish::Failed(HandlerError::UnexpectedOutcome)),
            ),
        }
    }
}

/// The command that, given the title, copies the pack: how far it has come.
#[derive(Debug)]
pub enum CreateNewStickerSet {
    /// Waiting for the notice that the copying begins to be sent.
    Announcing { source_name: String, user_id: i64, title: String, policy: StealPolicy },
    /// Copying; `notice` is the message that said so.
    Stealing { steal: Steal, notice: MessageRef },
    /// Waiting for the report of a complete copy to be sent.
    Reporting { notice: MessageRef },
    /// Waiting for the notice to be deleted.
    Deleting,
    /// Waiting for the last message to be sent.
    Closing,
    Over,
}

/// Whether `reply` carries what is told of the pack `created`, copied from
/// the pack `source_name`.
pub open spec fn tells_of(
    title: String,
    name: String,
    link: String,
    original_title: String,
    original_link: String,
    created: CreatedSet,
    source_name: Seq<char>,
) -> bool {
    &&& title@ == created.title@
    &&& name@ == created.name@
    &&& link@ == created.link@
    &&& original_title@ == created.original_title@
    &&& original_link@ == TELEGRAM_STICKER_SET_URL@ + source_name
}

/// Whether `step` reports `report` to the user: a complete copy and a
/// partial one each with their own message and the names and addresses of
/// both packs, a failure with the plain word that creating failed.
pub open spec fn reports(step: Step, report: StealReport, source_name: Seq<char>) -> bool {
    &&& step matches Step::Call(Call::SendMessage { reply, quote })
    &&& !quote
    &&& match report {
        StealReport::Success(created) => {
            &&& reply matches Reply::Stolen { title, name, link, original_title, original_link }
            &&& tells_of(title, name, link, original_title, original_link, created, source_name)
        },
        StealReport::Partial(created) => {
            &&& reply matches Reply::PartlyStolen {
                title,
                name,
                link,
                original_title,
                original_link,
            }
            &&& tells_of(title, name, link, original_title, original_link, created, source_name)
        },
        StealReport::Failure(_) => reply == Reply::CreateFailed,
    }
}

/// Whether the title `text` is rejected, and with which message: one of
/// more than 64 bytes as too long, an empty one as too short.
pub open spec fn title_refusal(text: &str) -> Option<Reply> {
    if text.len() > MAX_TITLE_LENGTH {
        Some(Reply::TitleTooLong)
    } else if text.len() < 1 {
        Some(Reply::TitleTooShort)
    } else {
        None
    }
}

/// The pack that `conversation` is about to copy, if it has chosen one.
pub open spec fn chosen_source(conversation: Conversation) -> Option<String> {
    match conversation.context {
        Context::Steal(context) => context.steal_sticker_set_name,
        _ => None,
    }
}

/// Begin to copy the pack that the conversation has chosen, into a new pack
/// titled `text` for the user `user_id`, going by `policy`.
///
/// A title that is too long or too short changes nothing and the bot says
/// so. If the conversation holds no pack to copy, the conversation is over
/// and the command breaks off with the error that says which value is
/// missing. Otherwise the bot announces the copying, and the conversation
/// stays as it is until the copying has ended.
pub fn create_new_sticker_set(
    conversation: &mut Conversation,
    text: &str,
    user_id: i64,
    policy: StealPolicy,
) -> (begun: (CreateNewStickerSet, Step))
    ensures
        match (title_refusal(text), chosen_source(*old(conversation))) {
            (Some(reply), _) => {
                &&& *final(conversation) == *old(conversation)
                &&& begun.0 is Closing
                &&& says(begun.1, reply)
            },
            (None, Some(chosen)) => {
                &&& *final(conversation) == *old(conversation)
                &&& begun.0 matches CreateNewStickerSet::Announcing {
                    source_name,
                    user_id: owner,
                    title,
                    policy: kept,
                }
                &&& source_name@ == chosen@
                &&& owner == user_id
                &&& title@ == text@
                &&& kept == policy
                &&& begun.1 matches Step::Call(Call::SendMessage { reply, quote })
                &&& !quote
                &&& reply matches Reply::Stealing { title: announced }
                &&& announced@ == text@
            },
            (None, None) => {
                &&& *final(conversation) == idle()
                &&& begun.0 is Over
                &&& begun.1 == Step::Finish(
                    Finish::Failed(HandlerError::MissingValue("steal_sticker_set_name")),
                )
            },
        },
{
    if text.len() > MAX_TITLE_LENGTH {
        return (
            CreateNewStickerSet::Closing,
            Step::Call(Call::SendMessage { reply: Reply::TitleTooLong, quote: false }),
        );
    } else if text.len() < 1 {
        return (
            CreateNewStickerSet::Closing,
            Step::Call(Call::SendMessage { reply: Reply::TitleTooShort, quote: false }),
        );
    }
    let source_name: Option<String> = match &conversation.context {
        Context::Steal(context) => match &context.steal_sticker_set_name {
            Some(name) => Some(name.clone()),
            None => None,
        },
        _ => None,
    };
    match source_name {
        Some(source_name) => (
            CreateNewStickerSet::Announcing {
                source_name,
                user_id,
                title: String::from_str(text),
                policy,
            },
            Step::Call(
                Call::SendMessage {
                    reply: Reply::Stealing { title: String::from_str(text) },
                    quote: false,
                },
            ),
        ),
        None => {
            conversation.finish();
            (
                CreateNewStickerSet::Over,
                Step::Finish(
                    Finish::Failed(HandlerError::MissingValue("steal_sticker_set_name")),
                ),
            )
        },
    }
}

impl CreateNewStickerSet {
    /// Whether `after`, `step` and the conversation `now` are what follows
    /// `self` and the conversation `before` once `outcome` has come in.
    ///
    /// Once the notice is sent the copying begins with its first call.
    /// While it runs, its calls are passed on and the conversation stays
    /// as it is. When it ends, however it ends, the conversation is over;
    /// its report is sent to the user, and after the report of a complete
    /// copy the notice is deleted. A message that cannot be sent, and a
    /// failure of the database, break the command off.
    pub open spec fn follows(
        self,
        before: Conversation,
        outcome: Outcome,
        after: CreateNewStickerSet,
        now: Conversation,
        step: Step,
    ) -> bool {
        match self {
            CreateNewStickerSet::Announcing { source_name, user_id, title, policy } => now
                == before && match outcome {
                Outcome::Sent(notice) => {
                    &&& after matches CreateNewStickerSet::Stealing { steal, notice: kept }
                    &&& kept == notice
                    &&& steal.source_name@ == source_name@
                    &&& steal.user_id == user_id
                    &&& steal.title@ == title@
                    &&& steal.policy == policy
                    &&& steal.phase is Source
                    &&& step matches Step::Call(Call::GetStickerSet { name })
                    &&& name@ == source_name@
                },
                _ => after is Over && step == Step::Finish(finish_after_send(outcome)),
            },
            CreateNewStickerSet::Stealing { steal, notice } => exists|
                next: Steal,
                steal_step: StealStep,
            |
                {
                    &&& #[trigger] steal.follows(outcome, next, steal_step)
                    &&& match steal_step {
                        StealStep::Call(call) => {
                            &&& now == before
                            &&& after matches CreateNewStickerSet::Stealing {
                                steal: kept,
                                notice: kept_notice,
                            }
                            &&& kept == next
                            &&& kept_notice == notice
                            &&& step == Step::Call(call)
                        },
                        StealStep::Finished(report) => {
                            &&& now == idle()
                            &&& reports(step, report, steal.source_name@)
                            &&& match report {
                                StealReport::Success(_) => after
                                    == (CreateNewStickerSet::Reporting { notice }),
                                _ => after is Closing,
                            }
                        },
                        StealStep::Failed(error) => now == idle() && after is Over && step
                            == Step::Finish(Finish::Failed(error)),
                    }
                },
            CreateNewStickerSet::Reporting { notice } => now == before && match outcome {
                Outcome::Sent(_) => after is Deleting && step == Step::Call(
                    Call::DeleteMessage { message: notice },
                ),
                _ => after is Over && step == Step::Finish(finish_after_send(outcome)),
            },
            CreateNewStickerSet::Deleting => now == before && after is Over && step
                == Step::Finish(finish_after_work(outcome)),
            CreateNewStickerSet::Closing => now == before && after is Over && step
                == Step::Finish(finish_after_send(outcome)),
            CreateNewStickerSet::Over => now == before && after is Over && step == Step::Finish(
                Finish::Failed(HandlerError::UnexpectedOutcome),
            ),
        }
    }

    /// The message that reports `report`.
    fn report(report: StealReport, source_name: &String) -> (step: Step)
        ensures
            reports(step, report, source_name@),
    {
        let reply: Reply = match report {
            StealReport::Success(created) => {
                let mut original_link: String = String::from_str(TELEGRAM_STICKER_SET_URL);
                original_link.append(source_name.as_str());
                Reply::Stolen {
                    title: created.title,
                    name: created.name,
                    link: created.link,
                    original_title: created.original_title,
                    original_link,
                }
            },
            StealReport::Partial(created) => {
                let mut original_link: String = String::from_str(TELEGRAM_STICKER_SET_URL);
                original_link.append(source_name.as_str());
                Reply::PartlyStolen {
                    title: created.title,
                    name: created.name,
                    link: created.link,
                    original_title: created.original_title,
                    original_link,
                }
            },
            StealReport::Failure(_) => Reply::CreateFailed,
        };
        Step::Call(Call::SendMessage { reply, quote: false })
    }

    /// Take in what came of the latest call and say what to do next.
    pub fn resume(self, conversation: &mut Conversation, outcome: Outcome) -> (next: (
        CreateNewStickerSet,
        Step,
    ))
        ensures
            self.follows(*old(conversation), outcome, next.0, *final(conversation), next.1),
    {
        match self {
            CreateNewStickerSet::Announcing { source_name, user_id, title, policy } => match outcome {
                Outcome::Sent(notice) => {
                    let (steal, call) = Steal::start(
                        source_name.as_str(),
                        user_id,
                        title.as_str(),
                        policy,
                    );
                    (CreateNewStickerSet::Stealing { steal, notice }, Step::Call(call))
                },
                _ => (CreateNewStickerSet::Over, Step::Finish(after_send(outcome))),
            },
            CreateNewStickerSet::Stealing { steal, notice } => {
                let ghost before: Steal = steal;
                let (next, steal_step) = steal.resume(outcome);
                match steal_step {
                    StealStep::Call(call) => (
                        CreateNewStickerSet::Stealing { steal: next, notice },
                        Step::Call(call),
                    ),
                    StealStep::Finished(report) => {
                        let complete: bool = match &report {
                            StealReport::Success(_) => true,
                            _ => false,
                        };
                        assert(next.source_name@ == before.source_name@);
                        let step: Step = Self::report(report, &next.source_name);
                        conversation.finish();
                        if complete {
                            (CreateNewStickerSet::Reporting { notice }, step)
                        } else {
                            (CreateNewStickerSet::Closing, step)
                        }
                    },
                    StealStep::Failed(error) => {
                        conversation.finish();
                        (CreateNewStickerSet::Over, Step::Finish(Finish::Failed(error)))
                    },
                }
            },
            CreateNewStickerSet::Reporting { notice } => match outcome {
                Outcome::Sent(_) => (
                    CreateNewStickerSet::Deleting,
                    Step::Call(Call::DeleteMessage { message: notice }),
                ),
                _ => (CreateNewStickerSet::Over, Step::Finish(after_send(outcome))),
            },
            CreateNewStickerSet::Deleting => (
                CreateNewStickerSet::Over,
                Step::Finish(after_work(outcome)),
            ),
            CreateNewStickerSet::Closing => (
                CreateNewStickerSet::Over,
                Step::Finish(after_send(outcome)),
            ),
            CreateNewStickerSet::Over => (
                CreateNewStickerSet::Over,
                Step::Finish(Finish::Failed(HandlerError::UnexpectedOutcome)),
            ),
        }
    }
}

} // verus!
