use vstd::prelude::*;
use crate::bot_commands::handlers::common::{
    add_stickers, is_add_call, AddStep, AddStickers, ApiErrorKind, Awaiting, Call, HandlerError,
    Outcome, StickerSetInfo,
};
use crate::domain::entities::sticker::{is_input_of, InputSticker, Sticker};
use crate::stickers::common::{generate_sticker_set_name_and_link, is_generated_name};
use crate::stickers::constants::{
    CREATE_SET_IN_ONE_GO_LENGTH_LIMIT, GENERATED_NAME_LENGTH, MAX_NAME_ATTEMPTS,
    TELEGRAM_STICKER_SET_URL, WRITE_PAUSE_MILLIS,
};

verus! {

/// A pack that the bot has created.
#[derive(Debug, Clone, PartialEq, Eq)]
pub struct CreatedSet {
    pub name: String,
    pub link: String,
    pub title: String,
    /// Title of the pack that was copied.
    pub original_title: String,
}

/// Why no pack was created.
#[derive(Debug, Clone, Copy, PartialEq, Eq, Structural)]
pub enum StealFailure {
    /// Telegram did not hand out the pack to copy.
    SourceUnavailable,
    /// Telegram did not tell the bot's username.
    IdentityUnavailable,
    /// Telegram refused to create the pack, for another reason than its name.
    CreationRefused,
    /// Every name that was tried was taken.
    NamesExhausted,
}

/// What came of copying a pack.
#[derive(Debug)]
pub enum StealReport {
    /// The new pack holds every sticker of the original.
    Success(CreatedSet),
    /// The new pack exists, but Telegram refused some stickers.
    Partial(CreatedSet),
    /// No pack was created and nothing was recorded.
    Failure(StealFailure),
}

/// How far the copying of a pack has come, and what it waits for.
#[derive(Debug)]
pub enum StealPhase {
    /// Waiting for the pack to copy.
    Source,
    /// Waiting for the bot's username.
    Identity { source: StickerSetInfo },
    /// Waiting for Telegram's answer to the `attempts`-th try to create the
    /// pack, this time under `name`.
    Creating { source: StickerSetInfo, bot_username: String, name: String, link: String, attempts: u32 },
    /// Waiting for the database to record the new pack.
    Recording { source: StickerSetInfo, name: String, link: String },
    /// Waiting for the pause before the first further sticker to end.
    Pausing { source: StickerSetInfo, name: String, link: String },
    /// Adding the stickers that did not fit into the creating call.
    Adding { run: AddStickers, name: String, link: String, original_title: String },
    Over,
}

/// How a pack is copied: how many names are tried, how long a name is,
/// and how many stickers go into the call that creates the pack.
#[derive(Debug, Clone, Copy)]
pub struct StealPolicy {
    max_attempts: u32,
    name_length: usize,
    batch_ceiling: usize,
}

impl StealPolicy {
    #[verifier::type_invariant]
    spec fn name_can_be_made(self) -> bool {
        1 <= self.name_length <= isize::MAX
    }

    /// How many names may be tried before the copying gives up.
    pub closed spec fn spec_max_attempts(&self) -> u32 {
        self.max_attempts
    }

    /// Number of characters of a name before the bot's ending.
    pub closed spec fn spec_name_length(&self) -> usize {
        self.name_length
    }

    /// Most stickers that go into the call that creates a pack.
    pub closed spec fn spec_batch_ceiling(&self) -> usize {
        self.batch_ceiling
    }

    /// The policy with the given numbers, if a name of `name_length`
    /// characters can be made: it needs one character at least, and no
    /// more than the machine can hold.
    pub fn new(max_attempts: u32, name_length: usize, batch_ceiling: usize) -> (policy: Option<
        Self,
    >)
        ensures
            policy is Some == (1 <= name_length <= isize::MAX),
            policy is Some ==> policy->0.spec_max_attempts() == max_attempts
                && policy->0.spec_name_length() == name_length
                && policy->0.spec_batch_ceiling() == batch_ceiling,
    {
        if 1 <= name_length && name_length <= isize::MAX as usize {
            Some(StealPolicy { max_attempts, name_length, batch_ceiling })
        } else {
            None
        }
    }

    /// The policy that the bot goes by unless told otherwise.
    pub fn standard() -> (policy: Self)
        ensures
            policy.spec_max_attempts() == MAX_NAME_ATTEMPTS,
            policy.spec_name_length() == GENERATED_NAME_LENGTH,
            policy.spec_batch_ceiling() == CREATE_SET_IN_ONE_GO_LENGTH_LIMIT,
    {
        StealPolicy {
            max_attempts: MAX_NAME_ATTEMPTS,
            name_length: GENERATED_NAME_LENGTH,
            batch_ceiling: CREATE_SET_IN_ONE_GO_LENGTH_LIMIT,
        }
    }

    #[verifier::when_used_as_spec(spec_max_attempts)]
    pub fn max_attempts(&self) -> (max_attempts: u32)
        ensures
            max_attempts == self.spec_max_attempts(),
    {
        self.max_attempts
    }

    #[verifier::when_used_as_spec(spec_name_length)]
    pub fn name_length(&self) -> (name_length: usize)
        ensures
            name_length == self.spec_name_length(),
            1 <= name_length <= isize::MAX,
    {
        proof {
            use_type_invariant(self);
        }
        self.name_length
    }

    #[verifier::when_used_as_spec(spec_batch_ceiling)]
    pub fn batch_ceiling(&self) -> (batch_ceiling: usize)
        ensures
            batch_ceiling == self.spec_batch_ceiling(),
    {
        self.batch_ceiling
    }
}

/// The copying of the pack `source_name` into a new pack, titled `title`,
/// of the user `user_id`.
#[derive(Debug)]
pub struct Steal {
    pub source_name: String,
    pub user_id: i64,
    pub title: String,
    pub policy: StealPolicy,
    pub phase: StealPhase,
}

/// What the copying does next.
#[derive(Debug)]
pub enum StealStep {
    Call(Call),
    Finished(StealReport),
    /// The database failed after the pack was created.
    Failed(HandlerError),
}

/// How many stickers go into the call that creates a pack of `len`, where
/// one call takes `ceiling` at most.
pub open spec fn first_batch(len: nat, ceiling: nat) -> nat {
    if len > ceiling {
        ceiling
    } else {
        len
    }
}

/// Whether `inputs` are the first `count` of `stickers`, each made ready
/// for a pack, in the same order.
pub open spec fn are_inputs_of(inputs: Seq<InputSticker>, stickers: Seq<Sticker>, count: nat) -> bool {
    &&& inputs.len() == count
    &&& count <= stickers.len()
    &&& forall|i: int| 0 <= i < count ==> is_input_of(#[trigger] inputs[i], stickers[i])
}

/// Whether `call` asks to create the pack `name`, titled `title`, for
/// `user_id`, out of as many of `stickers` as one call takes, which is
/// `ceiling` at most.
pub open spec fn is_create_call(
    call: Call,
    user_id: i64,
    name: Seq<char>,
    title: Seq<char>,
    stickers: Seq<Sticker>,
    ceiling: nat,
) -> bool {
    match call {
        Call::CreateNewStickerSet { user_id: owner, name: new_name, title: new_title, stickers: inputs } => {
            &&& owner == user_id
            &&& new_name@ == name
            &&& new_title@ == title
            &&& are_inputs_of(inputs@, stickers, first_batch(stickers.len(), ceiling))
        },
        _ => false,
    }
}

/// Whether `call` asks to record the pack `name`, titled `title`, as
/// `user_id`'s.
pub open spec fn is_record_call(call: Call, user_id: i64, name: Seq<char>, title: Seq<char>) -> bool {
    match call {
        Call::CreateSet { tg_id, short_name, title: recorded } => tg_id == user_id && short_name@
            == name && recorded@ == title,
        _ => false,
    }
}

/// Whether `created` describes the pack `name` at `link`, titled `title`,
/// copied from a pack titled `original_title`.
pub open spec fn is_created(
    created: CreatedSet,
    name: Seq<char>,
    link: Seq<char>,
    title: Seq<char>,
    original_title: Seq<char>,
) -> bool {
    &&& created.name@ == name
    &&& created.link@ == link
    &&& created.title@ == title
    &&& created.original_title@ == original_title
}

/// Whether `name` and `link` are a fresh name of the bot `bot_username`,
/// `length` characters before the bot's ending, and the address of the
/// pack of that name.
pub open spec fn is_candidate(
    name: Seq<char>,
    link: Seq<char>,
    bot_username: Seq<char>,
    length: nat,
) -> bool {
    &&& is_generated_name(name, length, bot_username)
    &&& link == TELEGRAM_STICKER_SET_URL@ + name
}

impl Steal {
    /// Whether `after` has the source, the user, the title and the limit
    /// of `self`.
    pub open spec fn same_order(self, after: Steal) -> bool {
        &&& after.source_name@ == self.source_name@
        &&& after.user_id == self.user_id
        &&& after.title@ == self.title@
        &&& after.policy == self.policy
    }

    /// Whether `after` and `step` are what follows the arrival of the pack
    /// to copy: with the pack in hand the bot asks for its own username,
    /// without it the copying fails.
    pub open spec fn follows_source(self, outcome: Outcome, after: Steal, step: StealStep) -> bool {
        match outcome {
            Outcome::StickerSet(info) => {
                &&& after.phase matches StealPhase::Identity { source }
                &&& source.title@ == info.title@
                &&& source.stickers@ == info.stickers@
                &&& step == StealStep::Call(Call::GetBotUsername)
            },
            _ => {
                &&& after.phase is Over
                &&& step matches StealStep::Finished(StealReport::Failure(failure))
                &&& failure == StealFailure::SourceUnavailable
            },
        }
    }

    /// Whether `after` and `step` are what follows the arrival of the bot's
    /// username: the first try to create the pack, under a fresh name, with
    /// the first stickers of the original; or failure, where the username
    /// did not come or no try is allowed.
    pub open spec fn follows_identity(
        self,
        source: StickerSetInfo,
        outcome: Outcome,
        after: Steal,
        step: StealStep,
    ) -> bool {
        match outcome {
            Outcome::BotUsername(username) => if self.policy.max_attempts() >= 1 {
                &&& after.phase matches StealPhase::Creating {
                    source: kept,
                    bot_username,
                    name,
                    link,
                    attempts,
                }
                &&& kept.title@ == source.title@
                &&& kept.stickers@ == source.stickers@
                &&& bot_username@ == username@
                &&& attempts == 1
                &&& is_candidate(name@, link@, username@, self.policy.name_length() as nat)
                &&& step matches StealStep::Call(call)
                &&& is_create_call(
                    call,
                    self.user_id,
                    name@,
                    self.title@,
                    source.stickers@,
                    self.policy.batch_ceiling() as nat,
                )
            } else {
                &&& after.phase is Over
                &&& step matches StealStep::Finished(StealReport::Failure(failure))
                &&& failure == StealFailure::NamesExhausted
            },
            _ => {
                &&& after.phase is Over
                &&& step matches StealStep::Finished(StealReport::Failure(failure))
                &&& failure == StealFailure::IdentityUnavailable
            },
        }
    }

    /// Whether `after` and `step` are what follows Telegram's answer to a
    /// try to create the pack. Once created, the pack is recorded under the
    /// name of that try. Where the name was taken, the same call is made
    /// again under a fresh name, unless as many tries as the policy allows
    /// have been made: then, and on any other refusal, the copying fails.
    pub open spec fn follows_creating(
        self,
        source: StickerSetInfo,
        bot_username: String,
        name: String,
        link: String,
        attempts: u32,
        outcome: Outcome,
        after: Steal,
        step: StealStep,
    ) -> bool {
        match outcome {
            Outcome::Done => {
                &&& after.phase matches StealPhase::Recording {
                    source: kept,
                    name: kept_name,
                    link: kept_link,
                }
                &&& kept.title@ == source.title@
                &&& kept.stickers@ == source.stickers@
                &&& kept_name@ == name@
                &&& kept_link@ == link@
                &&& step matches StealStep::Call(call)
                &&& is_record_call(call, self.user_id, name@, self.title@)
            },
            Outcome::Failed(ApiErrorKind::ShortNameOccupied) => if attempts < self.policy.max_attempts() {
                &&& after.phase matches StealPhase::Creating {
                    source: kept,
                    bot_username: kept_username,
                    name: next_name,
                    link: next_link,
                    attempts: next_attempts,
                }
                &&& kept.title@ == source.title@
                &&& kept.stickers@ == source.stickers@
                &&& kept_username@ == bot_username@
                &&& next_attempts == attempts + 1
                &&& is_candidate(
                    next_name@,
                    next_link@,
                    bot_username@,
                    self.policy.name_length() as nat,
                )
                &&& step matches StealStep::Call(call)
                &&& is_create_call(
                    call,
                    self.user_id,
                    next_name@,
                    self.title@,
                    source.stickers@,
                    self.policy.batch_ceiling() as nat,
                )
            } else {
                &&& after.phase is Over
                &&& step matches StealStep::Finished(StealReport::Failure(failure))
                &&& failure == StealFailure::NamesExhausted
            },
            _ => {
                &&& after.phase is Over
                &&& step matches StealStep::Finished(StealReport::Failure(failure))
                &&& failure == StealFailure::CreationRefused
            },
        }
    }

    /// Whether `after` and `step` are what follows the database's answer.
    /// With the pack recorded, a pack whose original fitted into the
    /// creating call is complete, and for a longer one a pause begins. A
    /// failure of the database ends the copying with that failure.
    pub open spec fn follows_recording(
        self,
        source: StickerSetInfo,
        name: String,
        link: String,
        outcome: Outcome,
        after: Steal,
        step: StealStep,
    ) -> bool {
        match outcome {
            Outcome::Stored(Ok(())) => if source.stickers@.len() > self.policy.batch_ceiling() {
                &&& after.phase matches StealPhase::Pausing {
                    source: kept,
                    name: kept_name,
                    link: kept_link,
                }
                &&& kept.title@ == source.title@
                &&& kept.stickers@ == source.stickers@
                &&& kept_name@ == name@
                &&& kept_link@ == link@
                &&& step == StealStep::Call(Call::Sleep { millis: WRITE_PAUSE_MILLIS })
            } else {
                &&& after.phase is Over
                &&& step matches StealStep::Finished(StealReport::Success(created))
                &&& is_created(created, name@, link@, self.title@, source.title@)
            },
            Outcome::Stored(Err(error)) => {
                &&& after.phase is Over
                &&& step == StealStep::Failed(HandlerError::Database(error))
            },
            _ => {
                &&& after.phase is Over
                &&& step == StealStep::Failed(HandlerError::UnexpectedOutcome)
            },
        }
    }

    /// Whether `after` and `step` are what follows the pause after the
    /// pack was recorded: a run that adds the stickers left out of the
    /// creating call, beginning with the first of them.
    pub open spec fn follows_pausing(
        self,
        source: StickerSetInfo,
        name: String,
        link: String,
        after: Steal,
        step: StealStep,
    ) -> bool {
        if source.stickers@.len() > self.policy.batch_ceiling() {
            &&& after.phase matches StealPhase::Adding {
                run,
                name: kept_name,
                link: kept_link,
                original_title,
            }
            &&& kept_name@ == name@
            &&& kept_link@ == link@
            &&& original_title@ == source.title@
            &&& run.user_id == self.user_id
            &&& run.set_name@ == name@
            &&& run.stickers@ == source.stickers@.subrange(
                self.policy.batch_ceiling() as int,
                source.stickers@.len() as int,
            )
            &&& run.results@.len() == 0
            &&& run.awaiting == Awaiting::Answer
            &&& step matches StealStep::Call(call)
            &&& is_add_call(
                call,
                self.user_id,
                name@,
                source.stickers@[self.policy.batch_ceiling() as int],
            )
        } else {
            &&& after.phase is Over
            &&& step matches StealStep::Finished(StealReport::Success(created))
            &&& is_created(created, name@, link@, self.title@, source.title@)
        }
    }

    /// Whether `after` and `step` are what follows an outcome while the
    /// further stickers are added: the run of additions goes on as its own
    /// rules say, and when it ends the copying ends with it, complete if
    /// every sticker was added and partial if not.
    pub open spec fn follows_adding(
        self,
        run: AddStickers,
        name: String,
        link: String,
        original_title: String,
        outcome: Outcome,
        after: Steal,
        step: StealStep,
    ) -> bool {
        exists|next_run: AddStickers, add_step: AddStep|
            {
                &&& #[trigger] run.follows(outcome, next_run, add_step)
                &&& match add_step {
                    AddStep::Call(call) => {
                        &&& after.phase matches StealPhase::Adding {
                            run: kept_run,
                            name: kept_name,
                            link: kept_link,
                            original_title: kept_title,
                        }
                        &&& kept_run == next_run
                        &&& kept_name@ == name@
                        &&& kept_link@ == link@
                        &&& kept_title@ == original_title@
                        &&& step == StealStep::Call(call)
                    },
                    AddStep::Finished { all_added } => {
                        &&& after.phase is Over
                        &&& if all_added {
                            &&& step matches StealStep::Finished(StealReport::Success(created))
                            &&& is_created(created, name@, link@, self.title@, original_title@)
                        } else {
                            &&& step matches StealStep::Finished(StealReport::Partial(created))
                            &&& is_created(created, name@, link@, self.title@, original_title@)
                        }
                    },
                }
            }
    }

    /// Whether `after` and `step` are what follows `self` once `outcome`
    /// has come in. The source, the user, the title and the limit of tries
    /// never change; the rest goes by the phase that `self` is in. A
    /// copying that is over answers every outcome with an error.
    pub open spec fn follows(self, outcome: Outcome, after: Steal, step: StealStep) -> bool {
        &&& self.same_order(after)
        &&& match self.phase {
            StealPhase::Source => self.follows_source(outcome, after, step),
            StealPhase::Identity { source } => self.follows_identity(source, outcome, after, step),
            StealPhase::Creating { source, bot_username, name, link, attempts } =>
                self.follows_creating(
                source,
                bot_username,
                name,
                link,
                attempts,
                outcome,
                after,
                step,
            ),
            StealPhase::Recording { source, name, link } => self.follows_recording(
                source,
                name,
                link,
                outcome,
                after,
                step,
            ),
            StealPhase::Pausing { source, name, link } => self.follows_pausing(
                source,
                name,
                link,
                after,
                step,
            ),
            StealPhase::Adding { run, name, link, original_title } => self.follows_adding(
                run,
                name,
                link,
                original_title,
                outcome,
                after,
                step,
            ),
            StealPhase::Over => after.phase is Over && step == StealStep::Failed(
                HandlerError::UnexpectedOutcome,
            ),
        }
    }

    /// Begin to copy the pack `source_name` into a new pack titled `title`
    /// for the user `user_id`, going by `policy`. The first thing to do is
    /// to ask Telegram for the pack to copy.
    pub fn start(source_name: &str, user_id: i64, title: &str, policy: StealPolicy) -> (begun: (
        Steal,
        Call,
    ))
        ensures
            begun.0.source_name@ == source_name@,
            begun.0.user_id == user_id,
            begun.0.title@ == title@,
            begun.0.policy == policy,
            begun.0.phase is Source,
            begun.1 matches Call::GetStickerSet { name } && name@ == source_name@,
    {
        let steal: Steal = Steal {
            source_name: String::from_str(source_name),
            user_id,
            title: String::from_str(title),
            policy,
            phase: StealPhase::Source,
        };
        (steal, Call::GetStickerSet { name: String::from_str(source_name) })
    }

    /// The call that creates the pack under `name`.
    fn create_call(&self, name: &String, stickers: &Vec<Sticker>) -> (call: Call)
        ensures
            is_create_call(
                call,
                self.user_id,
                name@,
                self.title@,
                stickers@,
                self.policy.batch_ceiling() as nat,
            ),
    {
        let count: usize = if stickers.len() > self.policy.batch_ceiling() {
            self.policy.batch_ceiling()
        } else {
            stickers.len()
        };
        let mut inputs: Vec<InputSticker> = Vec::new();
        let mut i: usize = 0;
        while i < count
            invariant
                0 <= i <= count <= stickers@.len(),
                inputs@.len() == i,
                forall|j: int| 0 <= j < i ==> is_input_of(#[trigger] inputs@[j], stickers@[j]),
            decreases count - i,
        {
            inputs.push(stickers[i].to_input());
            i = i + 1;
        }
        Call::CreateNewStickerSet {
            user_id: self.user_id,
            name: name.clone(),
            title: self.title.clone(),
            stickers: inputs,
        }
    }

    /// What is reported of the pack `name` once it is complete or as
    /// complete as it gets.
    fn created(&self, name: String, link: String, original_title: String) -> (created: CreatedSet)
        ensures
            is_created(created, name@, link@, self.title@, original_title@),
    {
        CreatedSet { name, link, title: self.title.clone(), original_title }
    }

    /// Take in what came of the latest call and say what to do next.
    pub fn resume(self, outcome: Outcome) -> (next: (Steal, StealStep))
        ensures
            self.follows(outcome, next.0, next.1),
    {
        let Steal { source_name, user_id, title, policy, phase } = self;
        let mut steal: Steal = Steal {
            source_name,
            user_id,
            title,
            policy,
            phase: StealPhase::Over,
        };
        match phase {
            StealPhase::Source => match outcome {
                Outcome::StickerSet(info) => {
                    steal.phase = StealPhase::Identity { source: info };
                    (steal, StealStep::Call(Call::GetBotUsername))
                },
                _ => (
                    steal,
                    StealStep::Finished(StealReport::Failure(StealFailure::SourceUnavailable)),
                ),
            },
            StealPhase::Identity { source } => match outcome {
                Outcome::BotUsername(username) => {
                    if policy.max_attempts() >= 1 {
                        let (name, link) = generate_sticker_set_name_and_link(
                            policy.name_length(),
                            username.as_str(),
                        );
                        let call: Call = steal.create_call(&name, &source.stickers);
                        steal.phase = StealPhase::Creating {
                            source,
                            bot_username: username,
                            name,
                            link,
                            attempts: 1,
                        };
                        (steal, StealStep::Call(call))
                    } else {
                        (
                            steal,
                            StealStep::Finished(
                                StealReport::Failure(StealFailure::NamesExhausted),
                            ),
                        )
                    }
                },
                _ => (
                    steal,
                    StealStep::Finished(StealReport::Failure(StealFailure::IdentityUnavailable)),
                ),
            },
            StealPhase::Creating { source, bot_username, name, link, attempts } => match outcome {
                Outcome::Done => {
                    let call: Call = Call::CreateSet {
                        tg_id: user_id,
                        short_name: name.clone(),
                        title: steal.title.clone(),
                    };
                    steal.phase = StealPhase::Recording { source, name, link };
                    (steal, StealStep::Call(call))
                },
                Outcome::Failed(ApiErrorKind::ShortNameOccupied) => {
                    if attempts < policy.max_attempts() {
                        let (next_name, next_link) = generate_sticker_set_name_and_link(
                            policy.name_length(),
                            bot_username.as_str(),
                        );
                        let call: Call = steal.create_call(&next_name, &source.stickers);
                        steal.phase = StealPhase::Creating {
                            source,
                            bot_username,
                            name: next_name,
                            link: next_link,
                            attempts: attempts + 1,
                        };
                        (steal, StealStep::Call(call))
                    } else {
                        (
                            steal,
                            StealStep::Finished(
                                StealReport::Failure(StealFailure::NamesExhausted),
                            ),
                        )
                    }
                },
                _ => (
                    steal,
                    StealStep::Finished(StealReport::Failure(StealFailure::CreationRefused)),
                ),
            },
            StealPhase::Recording { source, name, link } => match outcome {
                Outcome::Stored(Ok(())) => {
                    if source.stickers.len() > policy.batch_ceiling() {
                        steal.phase = StealPhase::Pausing { source, name, link };
                        (steal, StealStep::Call(Call::Sleep { millis: WRITE_PAUSE_MILLIS }))
                    } else {
                        let created: CreatedSet = steal.created(name, link, source.title);
                        (steal, StealStep::Finished(StealReport::Success(created)))
                    }
                },
                Outcome::Stored(Err(error)) => (
                    steal,
                    StealStep::Failed(HandlerError::Database(error)),
                ),
                _ => (steal, StealStep::Failed(HandlerError::UnexpectedOutcome)),
            },
            StealPhase::Pausing { source, name, link } => {
                let StickerSetInfo { title: original_title, stickers } = source;
                let mut stickers: Vec<Sticker> = stickers;
                if stickers.len() > policy.batch_ceiling() {
                    let rest: Vec<Sticker> = stickers.split_off(policy.batch_ceiling());
                    match add_stickers(user_id, name.as_str(), rest) {
                        Ok((run, call)) => {
                            steal.phase = StealPhase::Adding { run, name, link, original_title };
                            (steal, StealStep::Call(call))
                        },
                        Err(_) => (steal, StealStep::Failed(HandlerError::UnexpectedOutcome)),
                    }
                } else {
                    let created: CreatedSet = steal.created(name, link, original_title);
                    (steal, StealStep::Finished(StealReport::Success(created)))
                }
            },
            StealPhase::Adding { run, name, link, original_title } => {
                let (next_run, add_step) = run.resume(outcome);
                match add_step {
                    AddStep::Call(call) => {
                        steal.phase = StealPhase::Adding {
                            run: next_run,
                            name,
                            link,
                            original_title,
                        };
                        (steal, StealStep::Call(call))
                    },
                    AddStep::Finished { all_added } => {
                        let created: CreatedSet = steal.created(name, link, original_title);
                        if all_added {
                            (steal, StealStep::Finished(StealReport::Success(created)))
                        } else {
                            (steal, StealStep::Finished(StealReport::Partial(created)))
                        }
                    },
                }
            },
            StealPhase::Over => (steal, StealStep::Failed(HandlerError::UnexpectedOutcome)),
        }
    }
}


/// Whether, from each of `states` to the next, Telegram answered the try to
/// create the pack by saying that the name is taken, and the copying went
/// on with the matching entry of `steps`.
pub open spec fn names_were_taken(states: Seq<Steal>, steps: Seq<StealStep>) -> bool {
    &&& states.len() == steps.len() + 1
    &&& forall|i: int|
        0 <= i < steps.len() ==> (#[trigger] states[i]).follows(
            Outcome::Failed(ApiErrorKind::ShortNameOccupied),
            states[i + 1],
            steps[i],
        )
}

/// Taken names change nothing but the name. Let a copying try to create
/// its pack, and let Telegram answer any number of tries by saying that
/// the name is taken. If the copying still tries after that, then it has
/// made one try for each answer, no more tries than its limit allows, each
/// of them for the same user, under the same title and with the same
/// stickers, and it still holds the same original.
pub proof fn lemma_taken_names_change_only_the_name(states: Seq<Steal>, steps: Seq<StealStep>)
    requires
        names_were_taken(states, steps),
        states[0].phase is Creating,
        states.last().phase is Creating,
    ensures
        states[0].same_order(states.last()),
        states.last().phase->Creating_source.title@ == states[0].phase->Creating_source.title@,
        states.last().phase->Creating_source.stickers@
            == states[0].phase->Creating_source.stickers@,
        states.last().phase->Creating_bot_username@ == states[0].phase->Creating_bot_username@,
        states.last().phase->Creating_attempts == states[0].phase->Creating_attempts
            + steps.len(),
        steps.len() > 0 ==> states.last().phase->Creating_attempts
            <= states[0].policy.max_attempts(),
        forall|i: int|
            0 <= i < steps.len() ==> {
                &&& (#[trigger] steps[i]) matches StealStep::Call(call)
                &&& is_create_call(
                    call,
                    states[0].user_id,
                    states[i + 1].phase->Creating_name@,
                    states[0].title@,
                    states[0].phase->Creating_source.stickers@,
                    states[0].policy.batch_ceiling() as nat,
                )
            },
    decreases steps.len(),
{
    if steps.len() > 0 {
        let shorter: Seq<Steal> = states.drop_last();
        let fewer: Seq<StealStep> = steps.drop_last();
        let last: int = steps.len() - 1;
        assert(states[last].follows(
            Outcome::Failed(ApiErrorKind::ShortNameOccupied),
            states[last + 1],
            steps[last],
        ));
        // Only a copying that tries to create its pack can go on trying.
        assert(states[last].phase is Creating);
        assert(names_were_taken(shorter, fewer)) by {
            assert forall|i: int| 0 <= i < fewer.len() implies (#[trigger] shorter[i]).follows(
                Outcome::Failed(ApiErrorKind::ShortNameOccupied),
                shorter[i + 1],
                fewer[i],
            ) by {
                assert(states[i].follows(
                    Outcome::Failed(ApiErrorKind::ShortNameOccupied),
                    states[i + 1],
                    steps[i],
                ));
            }
        }
        lemma_taken_names_change_only_the_name(shorter, fewer);
        assert(shorter[0] == states[0]);
        assert(shorter.last() == states[last]);
        assert forall|i: int| 0 <= i < steps.len() implies {
            &&& (#[trigger] steps[i]) matches StealStep::Call(call)
            &&& is_create_call(
                call,
                states[0].user_id,
                states[i + 1].phase->Creating_name@,
                states[0].title@,
                states[0].phase->Creating_source.stickers@,
                states[0].policy.batch_ceiling() as nat,
            )
        } by {
            if i < last {
                assert(fewer[i] == steps[i]);
                assert(shorter[i + 1] == states[i + 1]);
            }
        }
    }
}

/// A copying gives up when its last allowed name is taken: after the try
/// that the policy allows last, the answer that the name is taken ends the
/// copying with the failure that the names are exhausted.
pub proof fn lemma_tries_are_bounded(steal: Steal, after: Steal, step: StealStep)
    requires
        steal.phase is Creating,
        steal.phase->Creating_attempts >= steal.policy.max_attempts(),
        steal.follows(Outcome::Failed(ApiErrorKind::ShortNameOccupied), after, step),
    ensures
        after.phase is Over,
        step matches StealStep::Finished(StealReport::Failure(failure)) && failure
            == StealFailure::NamesExhausted,
{
}

/// However many names were taken before, the pack that is created is the
/// one that is recorded, once, and as the user's. When Telegram accepts a
/// try, the next call records the name of that try with the title that
/// the user chose, for the user who asked; and once the database has
/// recorded it, a pack whose original fits into one call is reported as a
/// complete copy under that name.
pub proof fn lemma_created_pack_is_recorded(
    steal: Steal,
    recording: Steal,
    record: StealStep,
    over: Steal,
    report: StealStep,
)
    requires
        steal.phase is Creating,
        steal.follows(Outcome::Done, recording, record),
        recording.follows(Outcome::Stored(Ok(())), over, report),
        steal.phase->Creating_source.stickers@.len() <= steal.policy.batch_ceiling(),
    ensures
        record matches StealStep::Call(call) && is_record_call(
            call,
            steal.user_id,
            steal.phase->Creating_name@,
            steal.title@,
        ),
        over.phase is Over,
        report matches StealStep::Finished(StealReport::Success(created)) && is_created(
            created,
            steal.phase->Creating_name@,
            steal.phase->Creating_link@,
            steal.title@,
            steal.phase->Creating_source.title@,
        ),
{
}

} // verus!
