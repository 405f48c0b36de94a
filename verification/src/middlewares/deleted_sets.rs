use vstd::prelude::*;
use crate::bot_commands::handlers::common::{ApiErrorKind, Call, HandlerError, Outcome};
use crate::domain::entities::set::StickerSet;

verus! {

/// Hours after which the bot looks again for packs that Telegram no longer
/// knows.
pub const SWEEP_INTERVAL_HOURS: i64 = 12;

/// After how many packs the check pauses.
pub const SWEEP_BATCH: usize = 5;

/// How long the check pauses, in milliseconds.
pub const SWEEP_PAUSE_MILLIS: u64 = 1010;

/// The check of a user's packs against Telegram: how far it has come.
#[derive(Debug)]
pub enum DeletedSets {
    /// Waiting for the database to list the user's packs.
    AwaitSets,
    /// Waiting for Telegram to say whether it knows the pack at `index`.
    Checking { sets: Vec<StickerSet>, index: usize },
    /// Waiting for the database to mark the pack at `index` as deleted.
    Marking { sets: Vec<StickerSet>, index: usize },
    /// Waiting for the pause after the pack at `index` to end.
    Pausing { sets: Vec<StickerSet>, index: usize },
    Over,
}

/// What the check does next.
#[derive(Debug)]
pub enum SweepStep {
    Call(Call),
    /// The check is over, or was not due; the update goes on to the
    /// commands.
    Pass,
    /// The update comes from no user and is passed over.
    Skip,
    Failed(HandlerError),
}

/// Whether `step` asks Telegram for the pack at `index` of `sets`.
pub open spec fn asks_for(step: SweepStep, sets: Seq<StickerSet>, index: int) -> bool {
    &&& step matches SweepStep::Call(Call::GetStickerSet { name })
    &&& name@ == sets[index].short_name@
}

/// Whether `after` and `step` go on to the pack after `index`: Telegram is
/// asked for the next pack, and after the last the check is over.
pub open spec fn goes_on(sets: Seq<StickerSet>, index: int, after: DeletedSets, step: SweepStep) -> bool {
    if index + 1 < sets.len() {
        &&& after matches DeletedSets::Checking { sets: kept, index: next }
        &&& kept@ == sets
        &&& next == index + 1
        &&& asks_for(step, sets, index + 1)
    } else {
        after is Over && step is Pass
    }
}

/// Whether `after` and `step` are what follows once the pack at `index` is
/// dealt with: a pause after the first pack and after every fifth from
/// there, and otherwise the next pack.
pub open spec fn dealt_with(sets: Seq<StickerSet>, index: int, after: DeletedSets, step: SweepStep) -> bool {
    if index % (SWEEP_BATCH as int) == 0 {
        &&& after matches DeletedSets::Pausing { sets: kept, index: paused }
        &&& kept@ == sets
        &&& paused == index
        &&& step == SweepStep::Call(Call::Sleep { millis: SWEEP_PAUSE_MILLIS })
    } else {
        goes_on(sets, index, after, step)
    }
}

/// Begin the check for an update from the user `from_id`, `elapsed_hours`
/// after the check before. A check is due after more than twelve hours;
/// one that is due reads the user's packs from the database, and where
/// the update comes from no user it is passed over.
pub fn deleted_sets(elapsed_hours: i64, from_id: Option<i64>) -> (begun: (DeletedSets, SweepStep))
    ensures
        elapsed_hours <= SWEEP_INTERVAL_HOURS ==> begun.0 is Over && begun.1 is Pass,
        elapsed_hours > SWEEP_INTERVAL_HOURS ==> match from_id {
            None => begun.0 is Over && begun.1 is Skip,
            Some(user_id) => begun.0 is AwaitSets && begun.1 == SweepStep::Call(
                Call::GetSets { tg_id: user_id },
            ),
        },
{
    if elapsed_hours > SWEEP_INTERVAL_HOURS {
        match from_id {
            None => (DeletedSets::Over, SweepStep::Skip),
            Some(user_id) => (
                DeletedSets::AwaitSets,
                SweepStep::Call(Call::GetSets { tg_id: user_id }),
            ),
        }
    } else {
        (DeletedSets::Over, SweepStep::Pass)
    }
}

impl DeletedSets {
    /// Whether `after` and `step` are what follows `self` once `outcome`
    /// has come in.
    ///
    /// Telegram is asked for each of the user's packs in turn. A pack that
    /// Telegram says it does not know is marked as deleted in the
    /// database; whatever else Telegram answers, the pack is left as it
    /// is. A failure of the database ends the check with that failure.
    pub open spec fn follows(self, outcome: Outcome, after: DeletedSets, step: SweepStep) -> bool {
        match self {
            DeletedSets::AwaitSets => match outcome {
                Outcome::Sets(list) => if list@.len() > 0 {
                    &&& after matches DeletedSets::Checking { sets, index }
                    &&& sets@ == list@
                    &&& index == 0
                    &&& asks_for(step, list@, 0)
                } else {
                    after is Over && step is Pass
                },
                Outcome::Unavailable(error) => after is Over && step == SweepStep::Failed(
                    HandlerError::Repository(error),
                ),
                Outcome::Stored(Err(error)) => after is Over && step == SweepStep::Failed(
                    HandlerError::Database(error),
                ),
                _ => after is Over && step == SweepStep::Failed(HandlerError::UnexpectedOutcome),
            },
            DeletedSets::Checking { sets, index } => if index < sets@.len() {
                match outcome {
                    Outcome::Failed(ApiErrorKind::StickerSetInvalid) => {
                        &&& after matches DeletedSets::Marking { sets: kept, index: marked }
                        &&& kept@ == sets@
                        &&& marked == index
                        &&& step matches SweepStep::Call(
                            Call::SetDeletedCol { short_name, deleted },
                        )
                        &&& short_name@ == sets@[index as int].short_name@
                        &&& deleted
                    },
                    _ => dealt_with(sets@, index as int, after, step),
                }
            } else {
                after is Over && step is Pass
            },
            DeletedSets::Marking { sets, index } => match outcome {
                Outcome::Stored(Ok(())) => if index < sets@.len() {
                    dealt_with(sets@, index as int, after, step)
                } else {
                    after is Over && step is Pass
                },
                Outcome::Stored(Err(error)) => after is Over && step == SweepStep::Failed(
                    HandlerError::Database(error),
                ),
                _ => after is Over && step == SweepStep::Failed(HandlerError::UnexpectedOutcome),
            },
            DeletedSets::Pausing { sets, index } => if index < sets@.len() {
                goes_on(sets@, index as int, after, step)
            } else {
                after is Over && step is Pass
            },
            DeletedSets::Over => after is Over && step == SweepStep::Failed(
                HandlerError::UnexpectedOutcome,
            ),
        }
    }

    /// Go on to the pack after `index`.
    fn go_on(sets: Vec<StickerSet>, index: usize) -> (next: (DeletedSets, SweepStep))
        requires
            index < sets@.len(),
        ensures
            goes_on(sets@, index as int, next.0, next.1),
    {
        if index < sets.len() - 1 {
            let name: String = sets[index + 1].short_name.clone();
            (
                DeletedSets::Checking { sets, index: index + 1 },
                SweepStep::Call(Call::GetStickerSet { name }),
            )
        } else {
            (DeletedSets::Over, SweepStep::Pass)
        }
    }

    /// Go on once the pack at `index` is dealt with.
    fn deal_with(sets: Vec<StickerSet>, index: usize) -> (next: (DeletedSets, SweepStep))
        requires
            index < sets@.len(),
        ensures
            dealt_with(sets@, index as int, next.0, next.1),
    {
        if index % SWEEP_BATCH == 0 {
            (
                DeletedSets::Pausing { sets, index },
                SweepStep::Call(Call::Sleep { millis: SWEEP_PAUSE_MILLIS }),
            )
        } else {
            Self::go_on(sets, index)
        }
    }

    /// Take in what came of the latest call and say what to do next.
    pub fn resume(self, outcome: Outcome) -> (next: (DeletedSets, SweepStep))
        ensures
            self.follows(outcome, next.0, next.1),
    {
        match self {
            DeletedSets::AwaitSets => match outcome {
                Outcome::Sets(list) => {
                    if list.len() > 0 {
                        let name: String = list[0].short_name.clone();
                        (
                            DeletedSets::Checking { sets: list, index: 0 },
                            SweepStep::Call(Call::GetStickerSet { name }),
                        )
                    } else {
                        (DeletedSets::Over, SweepStep::Pass)
                    }
                },
                Outcome::Unavailable(error) => (
                    DeletedSets::Over,
                    SweepStep::Failed(HandlerError::Repository(error)),
                ),
                Outcome::Stored(Err(error)) => (
                    DeletedSets::Over,
                    SweepStep::Failed(HandlerError::Database(error)),
                ),
                _ => (DeletedSets::Over, SweepStep::Failed(HandlerError::UnexpectedOutcome)),
            },
            DeletedSets::Checking { sets, index } => {
                if index >= sets.len() {
                    return (DeletedSets::Over, SweepStep::Pass);
                }
                match outcome {
                    Outcome::Failed(ApiErrorKind::StickerSetInvalid) => {
                        let short_name: String = sets[index].short_name.clone();
                        (
                            DeletedSets::Marking { sets, index },
                            SweepStep::Call(Call::SetDeletedCol { short_name, deleted: true }),
                        )
                    },
                    _ => Self::deal_with(sets, index),
                }
            },
            DeletedSets::Marking { sets, index } => match outcome {
                Outcome::Stored(Ok(())) => {
                    if index < sets.len() {
                        Self::deal_with(sets, index)
                    } else {
                        (DeletedSets::Over, SweepStep::Pass)
                    }
                },
                Outcome::Stored(Err(error)) => (
                    DeletedSets::Over,
                    SweepStep::Failed(HandlerError::Database(error)),
                ),
                _ => (DeletedSets::Over, SweepStep::Failed(HandlerError::UnexpectedOutcome)),
            },
            DeletedSets::Pausing { sets, index } => {
                if index < sets.len() {
                    Self::go_on(sets, index)
                } else {
                    (DeletedSets::Over, SweepStep::Pass)
                }
            },
            DeletedSets::Over => (
                DeletedSets::Over,
                SweepStep::Failed(HandlerError::UnexpectedOutcome),
            ),
        }
    }
}

} // verus!
