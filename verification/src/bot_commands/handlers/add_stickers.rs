use vstd::prelude::*;
use crate::bot_commands::handlers::common::{
    add_stickers, after_send, after_work, answers, finish_after_send, finish_after_work,
    is_add_call, says, AddStep, AddStickers, Awaiting, Call, Finish, HandlerError, Outcome,
    Reply, Step,
};
use crate::bot_commands::handlers::steal::is_record_call;
use crate::bot_commands::states::{
    idle, AddContext, AddStickerState, Context, Conversation, MessageRef, State, StolenSet,
};
use crate::domain::entities::sticker::Sticker;
use crate::stickers::common::{created_by_suffix, ends_with, set_created_by};
use crate::stickers::constants::{
    MAX_OWNER_LOOKUPS, MAX_STICKER_SET_LENGTH, NOTICE_LIFETIME_MILLIS,
};

verus! {

/// A conversation that waits for a sticker of the pack to add to.
pub open spec fn awaiting_stolen_set(conversation: Conversation) -> bool {
    &&& conversation.state == State::Add(AddStickerState::GetStolenStickerSet)
    &&& conversation.context matches Context::Add(context)
    &&& context.stolen_sticker_set is None
    &&& context.stickers_to_add@.len() == 0
}

/// Begin the command that adds stickers to a pack of the user: whatever
/// went on before is over, nothing is collected yet, and the bot asks for
/// a sticker of the pack to add to.
pub fn add_stickers_handler(conversation: &mut Conversation) -> (step: Step)
    ensures
        awaiting_stolen_set(*final(conversation)),
        says(step, Reply::SendYourStolenPack),
{
    conversation.finish();
    conversation.state = State::Add(AddStickerState::GetStolenStickerSet);
    conversation.context = Context::Add(
        AddContext { stolen_sticker_set: None, stickers_to_add: Vec::new() },
    );
    Step::Call(Call::SendMessage { reply: Reply::SendYourStolenPack, quote: false })
}

/// The pack that a user showed, as far as it is known.
#[derive(Debug)]
pub struct Sample {
    /// Who showed the pack.
    pub user_id: i64,
    pub name: String,
    pub title: String,
    /// Number of stickers in the pack.
    pub length: usize,
}

/// The check of the pack that a user wants to add to: how far it has come.
#[derive(Debug)]
pub enum GetStolenStickerSet {
    /// Waiting for Telegram to describe the pack.
    AwaitSet { user_id: i64, name: String },
    /// Waiting for the bot's username.
    AwaitUsername { sample: Sample },
    /// Waiting for the owner of the pack; `failures` tries have failed.
    AwaitOwner { sample: Sample, failures: u32 },
    /// Waiting for the database to record the pack as its owner's.
    AwaitRecord { sample: Sample, owner: i64 },
    /// Waiting for the notice about the pack's size to be sent.
    AwaitNotice { sample: Sample },
    /// Waiting for the request for stickers to be sent.
    AwaitPrompt { notice: MessageRef },
    /// Waiting for the notice to have been shown long enough.
    AwaitPause { notice: MessageRef },
    /// Waiting for the notice to be deleted.
    AwaitDelete,
    /// Waiting for the last message to be sent.
    Closing,
    Over,
}

/// Whether two samples describe the same pack shown by the same user.
pub open spec fn same_sample(a: Sample, b: Sample) -> bool {
    &&& a.user_id == b.user_id
    &&& a.name@ == b.name@
    &&& a.title@ == b.title@
    &&& a.length == b.length
}

/// Take the sticker that shows which pack to add to. A sticker of no pack
/// is answered by asking again; for any other the bot asks Telegram to
/// describe the pack.
pub fn get_stolen_sticker_set(sticker: &Sticker, user_id: i64) -> (begun: (
    GetStolenStickerSet,
    Step,
))
    ensures
        match sticker.set_name {
            None => begun.0 is Closing && says(begun.1, Reply::StickerWithoutPack),
            Some(set_name) => {
                &&& begun.0 matches GetStolenStickerSet::AwaitSet { user_id: asker, name }
                &&& asker == user_id
                &&& name@ == set_name@
                &&& begun.1 matches Step::Call(Call::GetStickerSet { name: asked })
                &&& asked@ == set_name@
            },
        },
{
    match &sticker.set_name {
        None => (
            GetStolenStickerSet::Closing,
            Step::Call(Call::SendMessage { reply: Reply::StickerWithoutPack, quote: false }),
        ),
        Some(set_name) => (
            GetStolenStickerSet::AwaitSet { user_id, name: set_name.clone() },
            Step::Call(Call::GetStickerSet { name: set_name.clone() }),
        ),
    }
}

impl GetStolenStickerSet {
    /// Whether `after` and `step` are what follows the bot's username: a
    /// pack whose name does not end with the bot's ending is refused, for
    /// any other the bot asks who owns it.
    pub open spec fn follows_username(sample: Sample, outcome: Outcome, after: Self, step: Step) -> bool {
        match outcome {
            Outcome::BotUsername(username) => if ends_with(
                sample.name@,
                created_by_suffix(username@),
            ) {
                &&& after matches GetStolenStickerSet::AwaitOwner { sample: kept, failures }
                &&& same_sample(kept, sample)
                &&& failures == 0
                &&& step matches Step::Call(Call::GetStickerSetUserId { set_name })
                &&& set_name@ == sample.name@
            } else {
                after is Closing && says(step, Reply::NotStolenByThisBot)
            },
            Outcome::Failed(kind) => after is Over && step == Step::Finish(
                Finish::Failed(HandlerError::Telegram(kind)),
            ),
            _ => after is Over && step == Step::Finish(
                Finish::Failed(HandlerError::UnexpectedOutcome),
            ),
        }
    }

    /// Whether `after` and `step` are what follows an answer to the
    /// question who owns the pack. With the owner known, the pack is
    /// recorded as the owner's. A failed try is repeated until
    /// `MAX_OWNER_LOOKUPS` tries have failed; then, and when the time for
    /// all tries has run out, the bot tells the user that it failed.
    pub open spec fn follows_owner(
        sample: Sample,
        failures: u32,
        outcome: Outcome,
        after: Self,
        step: Step,
    ) -> bool {
        match outcome {
            Outcome::StickerSetUserId(owner) => {
                &&& after matches GetStolenStickerSet::AwaitRecord { sample: kept, owner: found }
                &&& same_sample(kept, sample)
                &&& found == owner
                &&& step matches Step::Call(call)
                &&& is_record_call(call, owner, sample.name@, sample.title@)
            },
            Outcome::Failed(_) => if failures + 1 < MAX_OWNER_LOOKUPS {
                &&& after matches GetStolenStickerSet::AwaitOwner {
                    sample: kept,
                    failures: counted,
                }
                &&& same_sample(kept, sample)
                &&& counted == failures + 1
                &&& step matches Step::Call(Call::GetStickerSetUserId { set_name })
                &&& set_name@ == sample.name@
            } else {
                after is Closing && answers(step, Reply::OwnerLookupFailed)
            },
            _ => after is Closing && answers(step, Reply::OwnerLookupFailed),
        }
    }

    /// Whether `after` and `step` are what follows the database's answer:
    /// a user who does not own the pack is refused, a full pack is
    /// refused, and the owner of a pack with room is told how much room.
    pub open spec fn follows_record(
        sample: Sample,
        owner: i64,
        outcome: Outcome,
        after: Self,
        step: Step,
    ) -> bool {
        match outcome {
            Outcome::Stored(Ok(())) => if sample.user_id != owner {
                after is Closing && says(step, Reply::NotOwner)
            } else if sample.length < MAX_STICKER_SET_LENGTH {
                &&& after matches GetStolenStickerSet::AwaitNotice { sample: kept }
                &&& same_sample(kept, sample)
                &&& answers(
                    step,
                    Reply::PackCapacity {
                        length: sample.length,
                        remaining: (MAX_STICKER_SET_LENGTH - sample.length) as usize,
                    },
                )
            } else {
                after is Closing && answers(step, Reply::PackFull)
            },
            Outcome::Stored(Err(error)) => after is Over && step == Step::Finish(
                Finish::Failed(HandlerError::Database(error)),
            ),
            _ => after is Over && step == Step::Finish(
                Finish::Failed(HandlerError::UnexpectedOutcome),
            ),
        }
    }

    /// Whether `now` is `before` after the check of the shown pack has
    /// passed: the conversation collects stickers for that pack and holds
    /// none yet but what it held.
    pub open spec fn accepted(before: Conversation, sample: Sample, now: Conversation) -> bool {
        &&& now.state == State::Add(AddStickerState::GetStickersToAdd)
        &&& now.context matches Context::Add(context)
        &&& context.stolen_sticker_set matches Some(chosen)
        &&& chosen.name@ == sample.name@
        &&& chosen.title@ == sample.title@
        &&& context.stickers_to_add@ == match before.context {
            Context::Add(held) => held.stickers_to_add@,
            _ => Seq::<Sticker>::empty(),
        }
    }

    /// Whether `after`, `step` and the conversation `now` are what follows
    /// `self` and the conversation `before` once `outcome` has come in.
    ///
    /// The conversation changes at one point only: when the notice about
    /// the pack's size has been sent, the pack is accepted and the bot asks
    /// for the stickers to add. Later the notice is deleted after a while.
    pub open spec fn follows(
        self,
        before: Conversation,
        outcome: Outcome,
        after: Self,
        now: Conversation,
        step: Step,
    ) -> bool {
        &&& !(self is AwaitNotice && outcome is Sent) ==> now == before
        &&& match self {
            GetStolenStickerSet::AwaitSet { user_id, name } => match outcome {
                Outcome::StickerSet(info) => {
                    &&& after matches GetStolenStickerSet::AwaitUsername { sample }
                    &&& sample.user_id == user_id
                    &&& sample.name@ == name@
                    &&& sample.title@ == info.title@
                    &&& sample.length == info.stickers@.len()
                    &&& step == Step::Call(Call::GetBotUsername)
                },
                _ => after is Closing && says(step, Reply::TrySendStickerAgain),
            },
            GetStolenStickerSet::AwaitUsername { sample } => Self::follows_username(
                sample,
                outcome,
                after,
                step,
            ),
            GetStolenStickerSet::AwaitOwner { sample, failures } => Self::follows_owner(
                sample,
                failures,
                outcome,
                after,
                step,
            ),
            GetStolenStickerSet::AwaitRecord { sample, owner } => Self::follows_record(
                sample,
                owner,
                outcome,
                after,
                step,
            ),
            GetStolenStickerSet::AwaitNotice { sample } => match outcome {
                Outcome::Sent(notice) => {
                    &&& Self::accepted(before, sample, now)
                    &&& after == (GetStolenStickerSet::AwaitPrompt { notice })
                    &&& says(step, Reply::SendStickersToAdd)
                },
                _ => after is Over && step == Step::Finish(finish_after_send(outcome)),
            },
            GetStolenStickerSet::AwaitPrompt { notice } => match outcome {
                Outcome::Sent(_) => after == (GetStolenStickerSet::AwaitPause { notice }) && step
                    == Step::Call(Call::Sleep { millis: NOTICE_LIFETIME_MILLIS }),
                _ => after is Over && step == Step::Finish(finish_after_send(outcome)),
            },
            GetStolenStickerSet::AwaitPause { notice } => after is AwaitDelete && step
                == Step::Call(Call::DeleteMessage { message: notice }),
            GetStolenStickerSet::AwaitDelete => after is Over && step == Step::Finish(
                finish_after_work(outcome),
            ),
            GetStolenStickerSet::Closing => after is Over && step == Step::Finish(
                finish_after_send(outcome),
            ),
            GetStolenStickerSet::Over => after is Over && step == Step::Finish(
                Finish::Failed(HandlerError::UnexpectedOutcome),
            ),
        }
    }

    /// Take in what came of the latest call and say what to do next.
    pub fn resume(self, conversation: &mut Conversation, outcome: Outcome) -> (next: (
        GetStolenStickerSet,
        Step,
    ))
        ensures
            self.follows(*old(conversation), outcome, next.0, *final(conversation), next.1),
    {
        match self {
            GetStolenStickerSet::AwaitSet { user_id, name } => match outcome {
                Outcome::StickerSet(info) => {
                    let sample: Sample = Sample {
                        user_id,
                        name,
                        title: info.title,
                        length: info.stickers.len(),
                    };
                    (
                        GetStolenStickerSet::AwaitUsername { sample },
                        Step::Call(Call::GetBotUsername),
                    )
                },
                _ => (
                    GetStolenStickerSet::Closing,
                    Step::Call(
                        Call::SendMessage { reply: Reply::TrySendStickerAgain, quote: false },
                    ),
                ),
            },
            GetStolenStickerSet::AwaitUsername { sample } => match outcome {
                Outcome::BotUsername(username) => {
                    if set_created_by(sample.name.as_str(), username.as_str()) {
                        let call: Call = Call::GetStickerSetUserId {
                            set_name: sample.name.clone(),
                        };
                        (
                            GetStolenStickerSet::AwaitOwner { sample, failures: 0 },
                            Step::Call(call),
                        )
                    } else {
                        (
                            GetStolenStickerSet::Closing,
                            Step::Call(
                                Call::SendMessage {
                                    reply: Reply::NotStolenByThisBot,
                                    quote: false,
                                },
                            ),
                        )
                    }
                },
                Outcome::Failed(kind) => (
                    GetStolenStickerSet::Over,
                    Step::Finish(Finish::Failed(HandlerError::Telegram(kind))),
                ),
                _ => (
                    GetStolenStickerSet::Over,
                    Step::Finish(Finish::Failed(HandlerError::UnexpectedOutcome)),
                ),
            },
            GetStolenStickerSet::AwaitOwner { sample, failures } => match outcome {
                Outcome::StickerSetUserId(owner) => {
                    let call: Call = Call::CreateSet {
                        tg_id: owner,
                        short_name: sample.name.clone(),
                        title: sample.title.clone(),
                    };
                    (GetStolenStickerSet::AwaitRecord { sample, owner }, Step::Call(call))
                },
                Outcome::Failed(_) => {
                    if failures < MAX_OWNER_LOOKUPS - 1 {
                        let call: Call = Call::GetStickerSetUserId {
                            set_name: sample.name.clone(),
                        };
                        (
                            GetStolenStickerSet::AwaitOwner { sample, failures: failures + 1 },
                            Step::Call(call),
                        )
                    } else {
                        (
                            GetStolenStickerSet::Closing,
                            Step::Call(
                                Call::SendMessage { reply: Reply::OwnerLookupFailed, quote: true },
                            ),
                        )
                    }
                },
                _ => (
                    GetStolenStickerSet::Closing,
                    Step::Call(Call::SendMessage { reply: Reply::OwnerLookupFailed, quote: true }),
                ),
            },
            GetStolenStickerSet::AwaitRecord { sample, owner } => match outcome {
                Outcome::Stored(Ok(())) => {
                    if sample.user_id != owner {
                        (
                            GetStolenStickerSet::Closing,
                            Step::Call(Call::SendMessage { reply: Reply::NotOwner, quote: false }),
                        )
                    } else if sample.length < MAX_STICKER_SET_LENGTH {
                        let reply: Reply = Reply::PackCapacity {
                            length: sample.length,
                            remaining: MAX_STICKER_SET_LENGTH - sample.length,
                        };
                        (
                            GetStolenStickerSet::AwaitNotice { sample },
                            Step::Call(Call::SendMessage { reply, quote: true }),
                        )
                    } else {
                        (
                            GetStolenStickerSet::Closing,
                            Step::Call(Call::SendMessage { reply: Reply::PackFull, quote: true }),
                        )
                    }
                },
                Outcome::Stored(Err(error)) => (
                    GetStolenStickerSet::Over,
                    Step::Finish(Finish::Failed(HandlerError::Database(error))),
                ),
                _ => (
                    GetStolenStickerSet::Over,
                    Step::Finish(Finish::Failed(HandlerError::UnexpectedOutcome)),
                ),
            },
            GetStolenStickerSet::AwaitNotice { sample } => match outcome {
                Outcome::Sent(notice) => {
                    let chosen: StolenSet = StolenSet { name: sample.name, title: sample.title };
                    let mut held: Vec<Sticker> = Vec::new();
                    match &mut conversation.context {
                        Context::Add(context) => {
                            held.append(&mut context.stickers_to_add);
                        },
                        _ => {},
                    }
                    conversation.context = Context::Add(
                        AddContext { stolen_sticker_set: Some(chosen), stickers_to_add: held },
                    );
                    conversation.state = State::Add(AddStickerState::GetStickersToAdd);
                    (
                        GetStolenStickerSet::AwaitPrompt { notice },
                        Step::Call(
                            Call::SendMessage { reply: Reply::SendStickersToAdd, quote: false },
                        ),
                    )
                },
                _ => (GetStolenStickerSet::Over, Step::Finish(after_send(outcome))),
            },
            GetStolenStickerSet::AwaitPrompt { notice } => match outcome {
                Outcome::Sent(_) => (
                    GetStolenStickerSet::AwaitPause { notice },
                    Step::Call(Call::Sleep { millis: NOTICE_LIFETIME_MILLIS }),
                ),
                _ => (GetStolenStickerSet::Over, Step::Finish(after_send(outcome))),
            },
            GetStolenStickerSet::AwaitPause { notice } => (
                GetStolenStickerSet::AwaitDelete,
                Step::Call(Call::DeleteMessage { message: notice }),
            ),
            GetStolenStickerSet::AwaitDelete => (
                GetStolenStickerSet::Over,
                Step::Finish(after_work(outcome)),
            ),
            GetStolenStickerSet::Closing => (
                GetStolenStickerSet::Over,
                Step::Finish(after_send(outcome)),
            ),
            GetStolenStickerSet::Over => (
                GetStolenStickerSet::Over,
                Step::Finish(Finish::Failed(HandlerError::UnexpectedOutcome)),
            ),
        }
    }
}


/// Taking one more sticker into the collection: how far it has come.
#[derive(Debug)]
pub enum GetStickersToAdd {
    /// Waiting for Telegram to tell how many stickers the pack holds now.
    AwaitLength { sticker: Sticker },
    /// Waiting for the last message to be sent.
    Closing,
    Over,
}

/// The pack that `conversation` collects stickers for, if it has one.
pub open spec fn chosen_set(conversation: Conversation) -> Option<StolenSet> {
    match conversation.context {
        Context::Add(context) => context.stolen_sticker_set,
        _ => None,
    }
}

/// The stickers that `conversation` has collected.
pub open spec fn collected(conversation: Conversation) -> Seq<Sticker> {
    match conversation.context {
        Context::Add(context) => context.stickers_to_add@,
        _ => Seq::<Sticker>::empty(),
    }
}

/// Take a sticker that the user wants to add. One without an emoji is
/// refused. If the conversation holds no pack to add to, the command
/// breaks off with the error that says which value is missing. Otherwise
/// the bot asks Telegram how many stickers that pack holds by now.
pub fn get_stickers_to_add(conversation: &Conversation, sticker: Sticker) -> (begun: (
    GetStickersToAdd,
    Step,
))
    ensures
        if sticker.emoji is None {
            begun.0 is Closing && answers(begun.1, Reply::StickerWithoutEmoji)
        } else {
            match chosen_set(*conversation) {
                Some(chosen) => {
                    &&& begun.0 == (GetStickersToAdd::AwaitLength { sticker })
                    &&& begun.1 matches Step::Call(Call::GetStickerSet { name })
                    &&& name@ == chosen.name@
                },
                None => begun.0 is Over && begun.1 == Step::Finish(
                    Finish::Failed(HandlerError::MissingValue("get_stolen_sticker_set")),
                ),
            }
        },
{
    if sticker.emoji.is_none() {
        return (
            GetStickersToAdd::Closing,
            Step::Call(Call::SendMessage { reply: Reply::StickerWithoutEmoji, quote: true }),
        );
    }
    match &conversation.context {
        Context::Add(context) => match &context.stolen_sticker_set {
            Some(chosen) => {
                return (
                    GetStickersToAdd::AwaitLength { sticker },
                    Step::Call(Call::GetStickerSet { name: chosen.name.clone() }),
                );
            },
            None => {},
        },
        _ => {},
    }
    (
        GetStickersToAdd::Over,
        Step::Finish(Finish::Failed(HandlerError::MissingValue("get_stolen_sticker_set"))),
    )
}

impl GetStickersToAdd {
    /// Whether `after`, `step` and the conversation `now` are what follows
    /// `self` and the conversation `before` once `outcome` has come in.
    ///
    /// The sticker joins the end of the collection exactly when the pack
    /// and the collection together hold fewer stickers than a pack can
    /// hold; where they have reached that number the bot says so and the
    /// collection stays as it is. Nothing else of the conversation changes.
    pub open spec fn follows(
        self,
        before: Conversation,
        outcome: Outcome,
        after: Self,
        now: Conversation,
        step: Step,
    ) -> bool {
        match self {
            GetStickersToAdd::AwaitLength { sticker } => match (outcome, before.context) {
                (Outcome::StickerSet(info), Context::Add(context)) => if info.stickers@.len()
                    + context.stickers_to_add@.len() >= MAX_STICKER_SET_LENGTH {
                    &&& now == before
                    &&& after is Closing
                    &&& says(step, Reply::LimitReached)
                } else {
                    &&& now.state == before.state
                    &&& now.context matches Context::Add(grown)
                    &&& grown.stolen_sticker_set == context.stolen_sticker_set
                    &&& grown.stickers_to_add@ == context.stickers_to_add@.push(sticker)
                    &&& after is Closing
                    &&& answers(step, Reply::StickerProcessed)
                },
                (Outcome::StickerSet(_), _) => {
                    &&& now == before
                    &&& after is Over
                    &&& step == Step::Finish(
                        Finish::Failed(HandlerError::MissingValue("get_stolen_sticker_set")),
                    )
                },
                (Outcome::Failed(kind), _) => {
                    &&& now == before
                    &&& after is Over
                    &&& step == Step::Finish(Finish::Failed(HandlerError::Telegram(kind)))
                },
                _ => {
                    &&& now == before
                    &&& after is Over
                    &&& step == Step::Finish(Finish::Failed(HandlerError::UnexpectedOutcome))
                },
            },
            GetStickersToAdd::Closing => now == before && after is Over && step == Step::Finish(
                finish_after_send(outcome),
            ),
            GetStickersToAdd::Over => now == before && after is Over && step == Step::Finish(
                Finish::Failed(HandlerError::UnexpectedOutcome),
            ),
        }
    }

    /// Take in what came of the latest call and say what to do next.
    pub fn resume(self, conversation: &mut Conversation, outcome: Outcome) -> (next: (
        GetStickersToAdd,
        Step,
    ))
        ensures
            self.follows(*old(conversation), outcome, next.0, *final(conversation), next.1),
    {
        match self {
            GetStickersToAdd::AwaitLength { sticker } => match outcome {
                Outcome::StickerSet(info) => match &mut conversation.context {
                    Context::Add(context) => {
                        let set_length: usize = info.stickers.len();
                        let collected: usize = context.stickers_to_add.len();
                        if set_length >= MAX_STICKER_SET_LENGTH || collected
                            >= MAX_STICKER_SET_LENGTH - set_length {
                            (
                                GetStickersToAdd::Closing,
                                Step::Call(
                                    Call::SendMessage { reply: Reply::LimitReached, quote: false },
                                ),
                            )
                        } else {
                            context.stickers_to_add.push(sticker);
                            (
                                GetStickersToAdd::Closing,
                                Step::Call(
                                    Call::SendMessage {
                                        reply: Reply::StickerProcessed,
                                        quote: true,
                                    },
                                ),
                            )
                        }
                    },
                    _ => (
                        GetStickersToAdd::Over,
                        Step::Finish(
                            Finish::Failed(HandlerError::MissingValue("get_stolen_sticker_set")),
                        ),
                    ),
                },
                Outcome::Failed(kind) => (
                    GetStickersToAdd::Over,
                    Step::Finish(Finish::Failed(HandlerError::Telegram(kind))),
                ),
                _ => (
                    GetStickersToAdd::Over,
                    Step::Finish(Finish::Failed(HandlerError::UnexpectedOutcome)),
                ),
            },
            GetStickersToAdd::Closing => (GetStickersToAdd::Over, Step::Finish(after_send(outcome))),
            GetStickersToAdd::Over => (
                GetStickersToAdd::Over,
                Step::Finish(Finish::Failed(HandlerError::UnexpectedOutcome)),
            ),
        }
    }
}

/// Adding the collected stickers to the user's pack: how far it has come.
#[derive(Debug)]
pub enum AddStickersToUserOwnedStickerSet {
    /// Waiting for the notice that the adding begins to be sent.
    Announcing { user_id: i64, chosen: StolenSet, stickers: Vec<Sticker> },
    /// Adding; `notice` is the message that said so.
    Adding { run: AddStickers, chosen: StolenSet, notice: MessageRef },
    /// Waiting for the warning that not every sticker was added to be sent.
    Warning { chosen: StolenSet, notice: MessageRef },
    /// Waiting for the closing message to be sent.
    Reporting { notice: MessageRef },
    /// Waiting for the notice to be deleted.
    Deleting,
    /// Waiting for the last message to be sent.
    Closing,
    Over,
}

/// Whether `a` and `b` name the same pack by the same title.
pub open spec fn same_set(a: StolenSet, b: StolenSet) -> bool {
    a.name@ == b.name@ && a.title@ == b.title@
}

/// Whether `step` tells the user that stickers were added to `chosen`.
pub open spec fn tells_added(step: Step, chosen: StolenSet) -> bool {
    &&& step matches Step::Call(Call::SendMessage { reply, quote })
    &&& !quote
    &&& reply matches Reply::StickersAdded { title, name }
    &&& title@ == chosen.title@
    &&& name@ == chosen.name@
}

/// Begin to add what the conversation has collected, for the user
/// `user_id`.
///
/// If the conversation holds no pack to add to, the conversation is over
/// and the command breaks off with the error that says which value is
/// missing. If no sticker has been collected, the bot says so and the
/// conversation goes on. Otherwise the collected stickers pass from the
/// conversation to the command, which announces the adding; the
/// conversation keeps its step and its pack until the adding has ended.
pub fn add_stickers_to_user_owned_sticker_set(conversation: &mut Conversation, user_id: i64) -> (begun: (
    AddStickersToUserOwnedStickerSet,
    Step,
))
    ensures
        match chosen_set(*old(conversation)) {
            None => {
                &&& *final(conversation) == idle()
                &&& begun.0 is Over
                &&& begun.1 == Step::Finish(
                    Finish::Failed(HandlerError::MissingValue("get_stolen_sticker_set")),
                )
            },
            Some(chosen) => if collected(*old(conversation)).len() == 0 {
                &&& *final(conversation) == *old(conversation)
                &&& begun.0 is Closing
                &&& says(begun.1, Reply::NoStickersSent)
            } else {
                &&& final(conversation).state == old(conversation).state
                &&& chosen_set(*final(conversation)) == Some(chosen)
                &&& collected(*final(conversation)).len() == 0
                &&& begun.0 matches AddStickersToUserOwnedStickerSet::Announcing {
                    user_id: owner,
                    chosen: kept,
                    stickers,
                }
                &&& owner == user_id
                &&& same_set(kept, chosen)
                &&& stickers@ == collected(*old(conversation))
                &&& says(begun.1, Reply::AddingStickers)
            },
        },
{
    match &mut conversation.context {
        Context::Add(context) => match &context.stolen_sticker_set {
            Some(chosen) => {
                if context.stickers_to_add.len() == 0 {
                    return (
                        AddStickersToUserOwnedStickerSet::Closing,
                        Step::Call(
                            Call::SendMessage { reply: Reply::NoStickersSent, quote: false },
                        ),
                    );
                }
                let chosen: StolenSet = StolenSet {
                    name: chosen.name.clone(),
                    title: chosen.title.clone(),
                };
                let mut stickers: Vec<Sticker> = Vec::new();
                stickers.append(&mut context.stickers_to_add);
                return (
                    AddStickersToUserOwnedStickerSet::Announcing { user_id, chosen, stickers },
                    Step::Call(Call::SendMessage { reply: Reply::AddingStickers, quote: false }),
                );
            },
            None => {},
        },
        _ => {},
    }
    conversation.finish();
    (
        AddStickersToUserOwnedStickerSet::Over,
        Step::Finish(Finish::Failed(HandlerError::MissingValue("get_stolen_sticker_set"))),
    )
}

impl AddStickersToUserOwnedStickerSet {
    /// Whether `after`, `step` and the conversation `now` are what follows
    /// `self` and the conversation `before` once `outcome` has come in.
    ///
    /// Once the notice is sent, the run that adds the stickers begins with
    /// the first of them. While it runs its calls are passed on and the
    /// conversation stays as it is. When it ends the conversation is over;
    /// the user is warned if Telegram refused a sticker, then told that
    /// stickers were added, and at last the notice is deleted. A message
    /// that cannot be sent breaks the command off.
    pub open spec fn follows(
        self,
        before: Conversation,
        outcome: Outcome,
        after: Self,
        now: Conversation,
        step: Step,
    ) -> bool {
        match self {
            AddStickersToUserOwnedStickerSet::Announcing { user_id, chosen, stickers } => now
                == before && match outcome {
                Outcome::Sent(notice) => if stickers@.len() > 0 {
                    &&& after matches AddStickersToUserOwnedStickerSet::Adding {
                        run,
                        chosen: kept,
                        notice: kept_notice,
                    }
                    &&& kept == chosen
                    &&& kept_notice == notice
                    &&& run.user_id == user_id
                    &&& run.set_name@ == chosen.name@
                    &&& run.stickers@ == stickers@
                    &&& run.results@.len() == 0
                    &&& run.awaiting == Awaiting::Answer
                    &&& step matches Step::Call(call)
                    &&& is_add_call(call, user_id, chosen.name@, stickers@[0])
                } else {
                    after is Over && step == Step::Finish(
                        Finish::Failed(HandlerError::MissingValue("get_stickers_to_add")),
                    )
                },
                _ => after is Over && step == Step::Finish(finish_after_send(outcome)),
            },
            AddStickersToUserOwnedStickerSet::Adding { run, chosen, notice } => exists|
                next_run: AddStickers,
                add_step: AddStep,
            |
                {
                    &&& #[trigger] run.follows(outcome, next_run, add_step)
                    &&& match add_step {
                        AddStep::Call(call) => {
                            &&& now == before
                            &&& after == (AddStickersToUserOwnedStickerSet::Adding {
                                run: next_run,
                                chosen,
                                notice,
                            })
                            &&& step == Step::Call(call)
                        },
                        AddStep::Finished { all_added } => now == idle() && if all_added {
                            &&& after == (AddStickersToUserOwnedStickerSet::Reporting { notice })
                            &&& tells_added(step, chosen)
                        } else {
                            &&& after == (AddStickersToUserOwnedStickerSet::Warning {
                                chosen,
                                notice,
                            })
                            &&& says(step, Reply::NotAllAdded)
                        },
                    }
                },
            AddStickersToUserOwnedStickerSet::Warning { chosen, notice } => now == before
                && match outcome {
                Outcome::Sent(_) => after == (AddStickersToUserOwnedStickerSet::Reporting {
                    notice,
                }) && tells_added(step, chosen),
                _ => after is Over && step == Step::Finish(finish_after_send(outcome)),
            },
            AddStickersToUserOwnedStickerSet::Reporting { notice } => now == before
                && match outcome {
                Outcome::Sent(_) => after is Deleting && step == Step::Call(
                    Call::DeleteMessage { message: notice },
                ),
                _ => after is Over && step == Step::Finish(finish_after_send(outcome)),
            },
            AddStickersToUserOwnedStickerSet::Deleting => now == before && after is Over && step
                == Step::Finish(finish_after_work(outcome)),
            AddStickersToUserOwnedStickerSet::Closing => now == before && after is Over && step
                == Step::Finish(finish_after_send(outcome)),
            AddStickersToUserOwnedStickerSet::Over => now == before && after is Over && step
                == Step::Finish(Finish::Failed(HandlerError::UnexpectedOutcome)),
        }
    }

    /// The message that stickers were added to `chosen`.
    fn added(chosen: &StolenSet) -> (step: Step)
        ensures
            tells_added(step, *chosen),
    {
        Step::Call(
            Call::SendMessage {
                reply: Reply::StickersAdded {
                    title: chosen.title.clone(),
                    name: chosen.name.clone(),
                },
                quote: false,
            },
        )
    }

    /// Take in what came of the latest call and say what to do next.
    pub fn resume(self, conversation: &mut Conversation, outcome: Outcome) -> (next: (
        AddStickersToUserOwnedStickerSet,
        Step,
    ))
        ensures
            self.follows(*old(conversation), outcome, next.0, *final(conversation), next.1),
    {
        match self {
            AddStickersToUserOwnedStickerSet::Announcing { user_id, chosen, stickers } => match outcome {
                Outcome::Sent(notice) => match add_stickers(
                    user_id,
                    chosen.name.as_str(),
                    stickers,
                ) {
                    Ok((run, call)) => (
                        AddStickersToUserOwnedStickerSet::Adding { run, chosen, notice },
                        Step::Call(call),
                    ),
                    Err(_) => (
                        AddStickersToUserOwnedStickerSet::Over,
                        Step::Finish(
                            Finish::Failed(HandlerError::MissingValue("get_stickers_to_add")),
                        ),
                    ),
                },
                _ => (AddStickersToUserOwnedStickerSet::Over, Step::Finish(after_send(outcome))),
            },
            AddStickersToUserOwnedStickerSet::Adding { run, chosen, notice } => {
                let (next_run, add_step) = run.resume(outcome);
                match add_step {
                    AddStep::Call(call) => (
                        AddStickersToUserOwnedStickerSet::Adding { run: next_run, chosen, notice },
                        Step::Call(call),
                    ),
                    AddStep::Finished { all_added } => {
                        conversation.finish();
                        if all_added {
                            let step: Step = Self::added(&chosen);
                            (AddStickersToUserOwnedStickerSet::Reporting { notice }, step)
                        } else {
                            (
                                AddStickersToUserOwnedStickerSet::Warning { chosen, notice },
                                Step::Call(
                                    Call::SendMessage { reply: Reply::NotAllAdded, quote: false },
                                ),
                            )
                        }
                    },
                }
            },
            AddStickersToUserOwnedStickerSet::Warning { chosen, notice } => match outcome {
                Outcome::Sent(_) => {
                    let step: Step = Self::added(&chosen);
                    (AddStickersToUserOwnedStickerSet::Reporting { notice }, step)
                },
                _ => (AddStickersToUserOwnedStickerSet::Over, Step::Finish(after_send(outcome))),
            },
            AddStickersToUserOwnedStickerSet::Reporting { notice } => match outcome {
                Outcome::Sent(_) => (
                    AddStickersToUserOwnedStickerSet::Deleting,
                    Step::Call(Call::DeleteMessage { message: notice }),
                ),
                _ => (AddStickersToUserOwnedStickerSet::Over, Step::Finish(after_send(outcome))),
            },
            AddStickersToUserOwnedStickerSet::Deleting => (
                AddStickersToUserOwnedStickerSet::Over,
                Step::Finish(after_work(outcome)),
            ),
            AddStickersToUserOwnedStickerSet::Closing => (
                AddStickersToUserOwnedStickerSet::Over,
                Step::Finish(after_send(outcome)),
            ),
            AddStickersToUserOwnedStickerSet::Over => (
                AddStickersToUserOwnedStickerSet::Over,
                Step::Finish(Finish::Failed(HandlerError::UnexpectedOutcome)),
            ),
        }
    }
}

} // verus!
