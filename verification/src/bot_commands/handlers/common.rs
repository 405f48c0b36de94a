use vstd::prelude::*;
use crate::application::common::exceptions::{RepoError, RepoKind, TransactionKind};
use crate::application::set::exceptions::SetTgIdNotExist;
use crate::bot_commands::states::MessageRef;
use crate::domain::entities::set::StickerSet;
use crate::domain::entities::sticker::{is_input_of, InputSticker, Sticker};
use crate::stickers::constants::WRITE_PAUSE_MILLIS;

verus! {

/// A button below a message.
#[derive(Debug, Clone, PartialEq, Eq)]
pub struct InlineKeyboardButton {
    /// What the button shows.
    pub text: String,
    /// What the bot receives when the button is pressed.
    pub callback_data: String,
}

/// What the bot says to the user. Each message is one fixed text, completed
/// by the values that the variant carries.
#[derive(Debug, Clone, PartialEq, Eq)]
pub enum Reply {
    /// The greeting with the list of commands.
    Start { first_name: String },
    /// Where the bot's source code is.
    Source,
    LastCommandCanceled,
    SendSticker,
    /// Asks for a sticker of the pack to copy.
    SendStickerToSteal,
    StickerWithoutPack,
    /// Asks for the title of the new pack.
    EnterNewTitle,
    TitleTooLong,
    TitleTooShort,
    /// The copy is under way.
    Stealing { title: String },
    CreateFailed,
    /// The pack exists but lacks some stickers of the original.
    PartlyStolen {
        title: String,
        name: String,
        link: String,
        original_title: String,
        original_link: String,
    },
    /// The pack exists with every sticker of the original.
    Stolen { title: String, name: String, link: String, original_title: String, original_link: String },
    /// Asks for a sticker of the pack to add to.
    SendYourStolenPack,
    TrySendStickerAgain,
    NotStolenByThisBot,
    OwnerLookupFailed,
    NotOwner,
    /// How many stickers the pack holds and how many more it can take.
    PackCapacity { length: usize, remaining: usize },
    PackFull,
    /// Asks for the stickers to add.
    SendStickersToAdd,
    StickerWithoutEmoji,
    /// The pack and the collected stickers together have reached the most a
    /// pack can hold.
    LimitReached,
    StickerProcessed,
    NoStickersSent,
    /// The collected stickers are being added.
    AddingStickers,
    NotAllAdded,
    StickersAdded { title: String, name: String },
    NoStolenPacks,
    CallbackFailed,
    /// One page of the list of packs, with its page buttons.
    PacksPage { text: String, buttons: Vec<Vec<InlineKeyboardButton>> },
}

/// Why Telegram refused a call, as far as the bot tells refusals apart.
#[derive(Debug, Clone, Copy, PartialEq, Eq, Structural)]
pub enum ApiErrorKind {
    /// The name for a new pack is taken.
    ShortNameOccupied,
    /// No pack goes by the name given.
    StickerSetInvalid,
    /// Anything else, a broken connection included.
    Other,
}

/// What Telegram says when the name for a new pack is taken.
pub const SHORTNAME_OCCUPY_FAILED: &'static str = "Bad Request: SHORTNAME_OCCUPY_FAILED";

/// What Telegram says when it knows no pack of the name given.
pub const STICKERSET_INVALID: &'static str = "Bad Request: STICKERSET_INVALID";

/// The kind of a refusal, given the words of Telegram where it refused a
/// request as a bad one, and `None` for every other failure.
pub open spec fn kind_of(bad_request: Option<&str>) -> ApiErrorKind {
    match bad_request {
        Some(message) => if message@ == SHORTNAME_OCCUPY_FAILED@ {
            ApiErrorKind::ShortNameOccupied
        } else if message@ == STICKERSET_INVALID@ {
            ApiErrorKind::StickerSetInvalid
        } else {
            ApiErrorKind::Other
        },
        None => ApiErrorKind::Other,
    }
}

/// Tell refusals apart by Telegram's words. This is the one place where
/// the bot reads those words.
pub fn api_error_kind(bad_request: Option<&str>) -> (kind: ApiErrorKind)
    ensures
        kind == kind_of(bad_request),
{
    match bad_request {
        Some(message) => {
            let message: String = String::from_str(message);
            if message == String::from_str(SHORTNAME_OCCUPY_FAILED) {
                ApiErrorKind::ShortNameOccupied
            } else if message == String::from_str(STICKERSET_INVALID) {
                ApiErrorKind::StickerSetInvalid
            } else {
                ApiErrorKind::Other
            }
        },
        None => ApiErrorKind::Other,
    }
}

/// Outside work that a command asks for. The program around the library
/// carries it out and hands back an [`Outcome`].
#[derive(Debug, Clone, PartialEq, Eq)]
pub enum Call {
    /// Send a message to the user; `quote` asks to send it as a reply to the
    /// user's message.
    SendMessage { reply: Reply, quote: bool },
    /// Replace the text of a message that the bot sent.
    EditMessage { message: MessageRef, reply: Reply },
    DeleteMessage { message: MessageRef },
    /// Ask Telegram for the title and the stickers of a pack.
    GetStickerSet { name: String },
    /// Ask Telegram for the bot's own username.
    GetBotUsername,
    /// Ask Telegram, once, who owns a pack.
    GetStickerSetUserId { set_name: String },
    CreateNewStickerSet { user_id: i64, name: String, title: String, stickers: Vec<InputSticker> },
    AddStickerToSet { user_id: i64, name: String, sticker: InputSticker },
    /// Do nothing for so long.
    Sleep { millis: u64 },
    /// Record a pack and its owner in the database.
    CreateSet { tg_id: i64, short_name: String, title: String },
    /// Read the user's packs that are not marked as deleted.
    GetSets { tg_id: i64 },
    /// Mark a pack in the database as deleted, or as not deleted.
    SetDeletedCol { short_name: String, deleted: bool },
}

/// A pack as Telegram describes it.
#[derive(Debug, Clone, PartialEq, Eq)]
pub struct StickerSetInfo {
    pub title: String,
    pub stickers: Vec<Sticker>,
}

/// What came of a [`Call`].
#[derive(Debug)]
pub enum Outcome {
    /// The message was sent, or edited.
    Sent(MessageRef),
    /// The call was carried out and has nothing to tell: a message deleted,
    /// a pack created, a sticker added, a pause over.
    Done,
    StickerSet(StickerSetInfo),
    BotUsername(String),
    StickerSetUserId(i64),
    /// The time allowed for finding the owner of a pack ran out.
    TimedOut,
    Sets(Vec<StickerSet>),
    /// The database command ended, well or not.
    Stored(Result<(), TransactionKind>),
    /// The database could not be read.
    Unavailable(RepoError),
    /// Telegram refused the call, or could not be reached.
    Failed(ApiErrorKind),
}

/// What came of reading a user's packs from the database: the packs, no
/// packs where the database says that the user has none, and the fault
/// where the database failed.
pub fn sets_outcome(result: Result<Vec<StickerSet>, RepoKind<SetTgIdNotExist>>) -> (outcome:
    Outcome)
    ensures
        match result {
            Ok(sets) => outcome == Outcome::Sets(sets),
            Err(RepoKind::Exception(_)) => outcome matches Outcome::Sets(sets) && sets@.len()
                == 0,
            Err(RepoKind::Unexpected(error)) => outcome == Outcome::Unavailable(error),
        },
{
    match result {
        Ok(sets) => Outcome::Sets(sets),
        Err(RepoKind::Exception(_)) => Outcome::Sets(Vec::new()),
        Err(RepoKind::Unexpected(error)) => Outcome::Unavailable(error),
    }
}

/// Why a command broke off.
#[derive(Debug)]
pub enum HandlerError {
    /// Telegram could not be told or asked something that the command cannot
    /// do without.
    Telegram(ApiErrorKind),
    /// The database failed.
    Database(TransactionKind),
    /// The database could not be read.
    Repository(RepoError),
    /// A button carried something that is no page of the list.
    InvalidCallback,
    /// The list has more pages than the bot can count.
    ListTooLong,
    /// A step found that an earlier step had not left what it needs.
    MissingValue(&'static str),
    /// The answer handed in does not belong to the call that was asked for.
    UnexpectedOutcome,
}

/// How a command ended.
#[derive(Debug)]
pub enum Finish {
    /// The update is dealt with.
    Handled,
    /// The update is dealt with and must reach no other command.
    Cancelled,
    Failed(HandlerError),
}

/// What a command does next: ask for outside work, or end.
#[derive(Debug)]
pub enum Step {
    Call(Call),
    Finish(Finish),
}

/// How a command ends once its last message is on its way: well if the
/// message was sent, with Telegram's refusal if it was not.
pub open spec fn finish_after_send(outcome: Outcome) -> Finish {
    match outcome {
        Outcome::Sent(_) => Finish::Handled,
        Outcome::Failed(kind) => Finish::Failed(HandlerError::Telegram(kind)),
        _ => Finish::Failed(HandlerError::UnexpectedOutcome),
    }
}

/// How a command ends once its last piece of outside work, other than a
/// message, has been asked for.
pub open spec fn finish_after_work(outcome: Outcome) -> Finish {
    match outcome {
        Outcome::Done => Finish::Handled,
        Outcome::Failed(kind) => Finish::Failed(HandlerError::Telegram(kind)),
        _ => Finish::Failed(HandlerError::UnexpectedOutcome),
    }
}

/// End a command whose last message has been asked for.
pub fn after_send(outcome: Outcome) -> (finish: Finish)
    ensures
        finish == finish_after_send(outcome),
{
    match outcome {
        Outcome::Sent(_) => Finish::Handled,
        Outcome::Failed(kind) => Finish::Failed(HandlerError::Telegram(kind)),
        _ => Finish::Failed(HandlerError::UnexpectedOutcome),
    }
}

/// End a command whose last piece of outside work has been asked for.
pub fn after_work(outcome: Outcome) -> (finish: Finish)
    ensures
        finish == finish_after_work(outcome),
{
    match outcome {
        Outcome::Done => Finish::Handled,
        Outcome::Failed(kind) => Finish::Failed(HandlerError::Telegram(kind)),
        _ => Finish::Failed(HandlerError::UnexpectedOutcome),
    }
}

/// The call that sends `reply` as a message of its own.
pub open spec fn says(step: Step, reply: Reply) -> bool {
    step == Step::Call(Call::SendMessage { reply, quote: false })
}

/// The call that sends `reply` in answer to the user's message.
pub open spec fn answers(step: Step, reply: Reply) -> bool {
    step == Step::Call(Call::SendMessage { reply, quote: true })
}

/// The list of stickers to add was empty.
#[derive(Debug, Clone)]
pub struct AddStickersError {
    message: String,
}

impl AddStickersError {
    pub closed spec fn spec_message(&self) -> Seq<char> {
        self.message@
    }

    pub fn new(message: String) -> (error: Self)
        ensures
            error.spec_message() == message@,
    {
        Self { message }
    }

    /// The error in words.
    pub fn to_text(&self) -> (text: String)
        ensures
            text@ == "Error occurded while adding stickers: "@ + self.spec_message(),
    {
        let mut text: String = String::from_str("Error occurded while adding stickers: ");
        text.append(self.message.as_str());
        text
    }
}

/// Tell the user, who sent something else, to send a sticker.
pub fn process_non_sticker() -> (step: Step)
    ensures
        step == Step::Call(Call::SendMessage { reply: Reply::SendSticker, quote: false }),
{
    Step::Call(Call::SendMessage { reply: Reply::SendSticker, quote: false })
}

/// What a run of [`add_stickers`] waits for.
#[derive(Debug, Clone, Copy, PartialEq, Eq, Structural)]
pub enum Awaiting {
    /// Telegram's answer to the latest call.
    Answer,
    /// The end of the pause after the latest call.
    Pause,
}

/// A run that adds stickers to a pack, one call for each, in the order of
/// the list, with a pause after every call. A sticker that Telegram refuses
/// is noted and the run goes on with the next.
#[derive(Debug)]
pub struct AddStickers {
    pub user_id: i64,
    pub set_name: String,
    pub stickers: Vec<Sticker>,
    /// For each sticker whose call has been answered, in order, whether
    /// Telegram took it.
    pub results: Vec<bool>,
    pub awaiting: Awaiting,
}

/// What a run of [`add_stickers`] does next.
#[derive(Debug)]
pub enum AddStep {
    Call(Call),
    /// The run is over; `all_added` says whether Telegram took every
    /// sticker.
    Finished { all_added: bool },
}

/// Whether `call` asks to add `sticker` to the pack `set_name` of `user_id`.
pub open spec fn is_add_call(call: Call, user_id: i64, set_name: Seq<char>, sticker: Sticker) -> bool {
    match call {
        Call::AddStickerToSet { user_id: owner, name, sticker: input } => owner == user_id
            && name@ == set_name && is_input_of(input, sticker),
        _ => false,
    }
}

/// Whether every entry of `results` is `true`.
pub open spec fn all_true(results: Seq<bool>) -> bool {
    forall|i: int| 0 <= i < results.len() ==> results[i]
}

impl AddStickers {
    /// Whether `after` and `step` are what follows `self` once `outcome`
    /// has come in.
    ///
    /// An answer from Telegram is noted as the result of the next sticker
    /// of the list, success only where the call was carried out, and a
    /// pause follows whatever the answer was. When a pause is over, the
    /// next sticker is sent, and when none is left the run ends, having
    /// added all stickers only if every result is a success. Nothing but
    /// the results and what the run waits for ever changes.
    pub open spec fn follows(self, outcome: Outcome, after: AddStickers, step: AddStep) -> bool {
        &&& after.user_id == self.user_id
        &&& after.set_name@ == self.set_name@
        &&& after.stickers@ == self.stickers@
        &&& match self.awaiting {
            Awaiting::Answer => if self.results@.len() < self.stickers@.len() {
                &&& after.results@ == self.results@.push(outcome is Done)
                &&& after.awaiting == Awaiting::Pause
                &&& step == AddStep::Call(Call::Sleep { millis: WRITE_PAUSE_MILLIS })
            } else {
                &&& after.results@ == self.results@
                &&& after.awaiting == Awaiting::Pause
                &&& step == (AddStep::Finished { all_added: all_true(self.results@) })
            },
            Awaiting::Pause => {
                &&& after.results@ == self.results@
                &&& if self.results@.len() < self.stickers@.len() {
                    &&& after.awaiting == Awaiting::Answer
                    &&& step is Call
                    &&& is_add_call(
                        step->Call_0,
                        self.user_id,
                        self.set_name@,
                        self.stickers@[self.results@.len() as int],
                    )
                } else {
                    &&& after.awaiting == Awaiting::Pause
                    &&& step == (AddStep::Finished { all_added: all_true(self.results@) })
                }
            },
        }
    }

    /// Whether every result so far is a success.
    fn all_added(&self) -> (all: bool)
        ensures
            all == all_true(self.results@),
    {
        let mut i: usize = 0;
        while i < self.results.len()
            invariant
                0 <= i <= self.results@.len(),
                forall|j: int| 0 <= j < i ==> self.results@[j],
            decreases self.results@.len() - i,
        {
            if !self.results[i] {
                return false;
            }
            i = i + 1;
        }
        true
    }

    /// The call that adds the sticker at `index`.
    fn call_for(&self, index: usize) -> (call: Call)
        requires
            index < self.stickers@.len(),
        ensures
            is_add_call(call, self.user_id, self.set_name@, self.stickers@[index as int]),
    {
        Call::AddStickerToSet {
            user_id: self.user_id,
            name: self.set_name.clone(),
            sticker: self.stickers[index].to_input(),
        }
    }

    /// Take in what came of the latest call and say what to do next.
    pub fn resume(self, outcome: Outcome) -> (next: (AddStickers, AddStep))
        ensures
            self.follows(outcome, next.0, next.1),
    {
        let mut run: AddStickers = self;
        match run.awaiting {
            Awaiting::Answer => {
                if run.results.len() < run.stickers.len() {
                    let added: bool = match outcome {
                        Outcome::Done => true,
                        _ => false,
                    };
                    run.results.push(added);
                    run.awaiting = Awaiting::Pause;
                    (run, AddStep::Call(Call::Sleep { millis: WRITE_PAUSE_MILLIS }))
                } else {
                    let all_added: bool = run.all_added();
                    run.awaiting = Awaiting::Pause;
                    (run, AddStep::Finished { all_added })
                }
            },
            Awaiting::Pause => {
                if run.results.len() < run.stickers.len() {
                    let call: Call = run.call_for(run.results.len());
                    run.awaiting = Awaiting::Answer;
                    (run, AddStep::Call(call))
                } else {
                    let all_added: bool = run.all_added();
                    (run, AddStep::Finished { all_added })
                }
            },
        }
    }
}

/// Begin to add the stickers of `sticker_list` to the pack `set_name` of
/// the user `user_id`. An empty list is an error; otherwise the run begins
/// with the call for the first sticker.
pub fn add_stickers(user_id: i64, set_name: &str, sticker_list: Vec<Sticker>) -> (begun: Result<
    (AddStickers, Call),
    AddStickersError,
>)
    ensures
        begun is Err == (sticker_list@.len() == 0),
        begun is Err ==> begun->Err_0.spec_message() == "list is empty"@,
        begun is Ok ==> {
            let (run, call) = begun->Ok_0;
            &&& run.user_id == user_id
            &&& run.set_name@ == set_name@
            &&& run.stickers@ == sticker_list@
            &&& run.results@.len() == 0
            &&& run.awaiting == Awaiting::Answer
            &&& is_add_call(call, user_id, set_name@, sticker_list@[0])
        },
{
    if sticker_list.len() == 0 {
        return Err(AddStickersError::new(String::from_str("list is empty")));
    }
    let run: AddStickers = AddStickers {
        user_id,
        set_name: String::from_str(set_name),
        stickers: sticker_list,
        results: Vec::new(),
        awaiting: Awaiting::Answer,
    };
    let call: Call = run.call_for(0);
    Ok((run, call))
}


/// Whether `runs` is a run from its beginning: the first of `runs` has no
/// result yet and waits for the answer to its first call, and each of
/// `runs` becomes the next by the matching entry of `outcomes`, doing the
/// matching entry of `steps`.
pub open spec fn is_add_run(
    runs: Seq<AddStickers>,
    outcomes: Seq<Outcome>,
    steps: Seq<AddStep>,
) -> bool {
    &&& runs.len() == outcomes.len() + 1
    &&& steps.len() == outcomes.len()
    &&& runs[0].results@.len() == 0
    &&& runs[0].awaiting == Awaiting::Answer
    &&& forall|i: int|
        0 <= i < outcomes.len() ==> (#[trigger] runs[i]).follows(
            outcomes[i],
            runs[i + 1],
            steps[i],
        )
}

/// Where a run stands after `taken` outcomes: it has one result for every
/// answer so far, each result saying whether that answer was a success,
/// and it waits for an answer after a pause and for a pause after an
/// answer.
proof fn lemma_add_run_state(
    runs: Seq<AddStickers>,
    outcomes: Seq<Outcome>,
    steps: Seq<AddStep>,
    taken: int,
)
    requires
        is_add_run(runs, outcomes, steps),
        0 <= taken <= outcomes.len(),
        taken <= 2 * runs[0].stickers@.len(),
        runs[0].stickers@.len() > 0,
    ensures
        runs[taken].user_id == runs[0].user_id,
        runs[taken].set_name@ == runs[0].set_name@,
        runs[taken].stickers@ == runs[0].stickers@,
        runs[taken].results@.len() == (taken + 1) / 2,
        forall|j: int|
            0 <= j < (taken + 1) / 2 ==> #[trigger] runs[taken].results@[j] == (outcomes[2 * j] is Done),
        runs[taken].awaiting == if taken % 2 == 0 && taken < 2 * runs[0].stickers@.len() {
            Awaiting::Answer
        } else {
            Awaiting::Pause
        },
    decreases taken,
{
    if taken > 0 {
        lemma_add_run_state(runs, outcomes, steps, taken - 1);
        let before: AddStickers = runs[taken - 1];
        let after: AddStickers = runs[taken];
        let count: int = runs[0].stickers@.len() as int;
        assert(before.follows(outcomes[taken - 1], after, steps[taken - 1]));
        if (taken - 1) % 2 == 0 {
            let half: int = (taken - 1) / 2;
            assert(taken - 1 == 2 * half);
            assert(before.results@.len() == half);
            assert(half < count);
            assert(before.awaiting == Awaiting::Answer);
            assert(after.results@ == before.results@.push(outcomes[taken - 1] is Done));
            assert((taken + 1) / 2 == half + 1);
            assert forall|j: int| 0 <= j < (taken + 1) / 2 implies #[trigger] after.results@[j]
                == (outcomes[2 * j] is Done) by {
                if j < half {
                    assert(after.results@[j] == before.results@[j]);
                }
            }
        } else {
            let half: int = (taken - 1) / 2;
            assert(taken - 1 == 2 * half + 1);
            assert(before.results@.len() == half + 1);
            assert(before.awaiting == Awaiting::Pause);
            assert(after.results@ == before.results@);
            assert((taken + 1) / 2 == half + 1);
            assert(taken % 2 == 0);
            assert((taken < 2 * count) == (half + 1 < count));
        }
    }
}

/// What a run does with the answer to its call for the sticker at
/// `index`: it pauses.
proof fn lemma_answer_is_followed_by_pause(
    runs: Seq<AddStickers>,
    outcomes: Seq<Outcome>,
    steps: Seq<AddStep>,
    index: int,
)
    requires
        is_add_run(runs, outcomes, steps),
        0 <= index < runs[0].stickers@.len(),
        2 * index < outcomes.len(),
    ensures
        steps[2 * index] == AddStep::Call(Call::Sleep { millis: WRITE_PAUSE_MILLIS }),
{
    lemma_add_run_state(runs, outcomes, steps, 2 * index);
    assert(runs[2 * index].follows(outcomes[2 * index], runs[2 * index + 1], steps[2 * index]));
    assert((2 * index + 1) / 2 == index);
}

/// What a run does when the pause after the sticker at `index` is over: it
/// sends the next sticker, or ends if that was the last.
proof fn lemma_pause_is_followed_by_next(
    runs: Seq<AddStickers>,
    outcomes: Seq<Outcome>,
    steps: Seq<AddStep>,
    index: int,
)
    requires
        is_add_run(runs, outcomes, steps),
        0 <= index < runs[0].stickers@.len(),
        2 * index + 1 < outcomes.len(),
    ensures
        runs[2 * index + 1].results@.len() == index + 1,
        forall|j: int|
            0 <= j <= index ==> #[trigger] runs[2 * index + 1].results@[j] == (outcomes[2 * j] is Done),
        index + 1 < runs[0].stickers@.len() ==> steps[2 * index + 1] is Call && is_add_call(
            steps[2 * index + 1]->Call_0,
            runs[0].user_id,
            runs[0].set_name@,
            runs[0].stickers@[index + 1],
        ),
        index + 1 == runs[0].stickers@.len() ==> steps[2 * index + 1] == (AddStep::Finished {
            all_added: all_true(runs[2 * index + 1].results@),
        }),
{
    lemma_add_run_state(runs, outcomes, steps, 2 * index + 1);
    assert(runs[2 * index + 1].follows(
        outcomes[2 * index + 1],
        runs[2 * index + 2],
        steps[2 * index + 1],
    ));
    assert((2 * index + 2) / 2 == index + 1);
}

/// A refused sticker stops nothing. Let a run add `n` stickers from its
/// beginning, and let all `2 * n` outcomes come in: an answer and the end
/// of a pause for each sticker. Then, whatever the answers were, a pause
/// followed every answer; after every pause but the last the next sticker
/// of the list was sent, for the same user and pack; and after the last
/// pause the run ended, saying that all stickers were added exactly if
/// every answer was a success.
pub proof fn lemma_every_sticker_is_tried(
    runs: Seq<AddStickers>,
    outcomes: Seq<Outcome>,
    steps: Seq<AddStep>,
)
    requires
        is_add_run(runs, outcomes, steps),
        outcomes.len() == 2 * runs[0].stickers@.len(),
    ensures
        forall|j: int|
            0 <= j < runs[0].stickers@.len() ==> #[trigger] steps[2 * j] == AddStep::Call(
                Call::Sleep { millis: WRITE_PAUSE_MILLIS },
            ),
        forall|j: int|
            0 <= j < runs[0].stickers@.len() - 1 ==> (#[trigger] steps[2 * j + 1]) is Call
                && is_add_call(
                steps[2 * j + 1]->Call_0,
                runs[0].user_id,
                runs[0].set_name@,
                runs[0].stickers@[j + 1],
            ),
        runs[0].stickers@.len() > 0 ==> steps.last() == (AddStep::Finished {
            all_added: forall|j: int|
                0 <= j < runs[0].stickers@.len() ==> #[trigger] outcomes[2 * j] is Done,
        }),
{
    let n: int = runs[0].stickers@.len() as int;
    assert forall|j: int| 0 <= j < n implies #[trigger] steps[2 * j] == AddStep::Call(
        Call::Sleep { millis: WRITE_PAUSE_MILLIS },
    ) by {
        lemma_answer_is_followed_by_pause(runs, outcomes, steps, j);
    }
    assert forall|j: int| 0 <= j < n - 1 implies (#[trigger] steps[2 * j + 1]) is Call
        && is_add_call(
        steps[2 * j + 1]->Call_0,
        runs[0].user_id,
        runs[0].set_name@,
        runs[0].stickers@[j + 1],
    ) by {
        lemma_pause_is_followed_by_next(runs, outcomes, steps, j);
    }
    if n > 0 {
        lemma_pause_is_followed_by_next(runs, outcomes, steps, n - 1);
        let results: Seq<bool> = runs[2 * n - 1].results@;
        let every: bool = forall|j: int| 0 <= j < n ==> #[trigger] outcomes[2 * j] is Done;
        assert(all_true(results) == every) by {
            if all_true(results) {
                assert forall|j: int| 0 <= j < n implies #[trigger] outcomes[2 * j] is Done by {
                    assert(results[j]);
                }
            }
            if every {
                assert forall|j: int| 0 <= j < results.len() implies results[j] by {
                    assert(outcomes[2 * j] is Done);
                }
            }
        }
        assert(steps.last() == steps[2 * (n - 1) + 1]);
    }
}

} // verus!
