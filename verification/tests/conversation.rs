use steal_stickers_bot::application::common::exceptions::{
    RepoError, RepoKind, RollbackError, TransactionKind,
};
use steal_stickers_bot::application::set::exceptions::SetTgIdNotExist;
use steal_stickers_bot::bot_commands::commands::{dispatch, Command, Handler, Update};
use steal_stickers_bot::bot_commands::handlers::add_stickers::{
    add_stickers_handler, add_stickers_to_user_owned_sticker_set, get_stickers_to_add,
    get_stolen_sticker_set, AddStickersToUserOwnedStickerSet, GetStickersToAdd,
    GetStolenStickerSet,
};
use steal_stickers_bot::bot_commands::handlers::cancel::{after_cancel, cancel_handler};
use steal_stickers_bot::bot_commands::handlers::common::{
    after_send, after_work, process_non_sticker, sets_outcome, ApiErrorKind, Call, Finish, HandlerError,
    Outcome, Reply, Step, StickerSetInfo,
};
use steal_stickers_bot::bot_commands::handlers::my_stickers::{
    get_buttons, my_stickers_handler, page_buttons, process_button, MyStickers, ProcessButton,
};
use steal_stickers_bot::bot_commands::handlers::source::source_handler;
use steal_stickers_bot::bot_commands::handlers::start::start_handler;
use steal_stickers_bot::bot_commands::handlers::steal::StealPolicy;
use steal_stickers_bot::bot_commands::handlers::steal_sticker_set::{
    create_new_sticker_set, get_sticker_set_name, steal_sticker_set_handler, CreateNewStickerSet,
    GetStickerSetName,
};
use steal_stickers_bot::bot_commands::states::{
    AddContext, AddStickerState, Context, Conversation, ListContext, MessageRef, MyStickersState,
    State, StealContext, StealStickerSetState, StolenSet,
};
use steal_stickers_bot::domain::entities::set::StickerSet;
use steal_stickers_bot::domain::entities::sticker::Sticker;
use steal_stickers_bot::middlewares::client_application::{client_action, ClientAction};
use steal_stickers_bot::middlewares::deleted_sets::{deleted_sets, DeletedSets, SweepStep};

fn sticker(file_id: &str, set_name: Option<&str>) -> Sticker {
    Sticker {
        file_id: file_id.to_owned(),
        set_name: set_name.map(str::to_owned),
        emoji: Some("🙂".to_owned()),
        is_animated: false,
        is_video: false,
    }
}

fn says(reply: Reply) -> Step {
    Step::Call(Call::SendMessage { reply, quote: false })
}

fn answers(reply: Reply) -> Step {
    Step::Call(Call::SendMessage { reply, quote: true })
}

fn same(step: &Step, expected: &Step) -> bool {
    match (step, expected) {
        (Step::Call(a), Step::Call(b)) => a == b,
        (Step::Finish(Finish::Handled), Step::Finish(Finish::Handled)) => true,
        (Step::Finish(Finish::Cancelled), Step::Finish(Finish::Cancelled)) => true,
        _ => false,
    }
}

fn message(id: i64) -> MessageRef {
    MessageRef { chat_id: 10, message_id: id }
}

fn idle() -> Conversation {
    Conversation { state: State::Idle, context: Context::Empty }
}

fn sets(count: usize) -> Vec<StickerSet> {
    (0..count)
        .map(|i| StickerSet {
            tg_id: 5,
            short_name: format!("n{i}"),
            title: format!("t{i}"),
        })
        .collect()
}

#[test]
fn steal_flow_runs_from_sample_to_report() {
    let mut conversation = Conversation::new();
    assert_eq!(conversation, idle());
    let step = steal_sticker_set_handler(&mut conversation);
    assert!(same(&step, &says(Reply::SendStickerToSteal)));
    assert_eq!(
        conversation.state,
        State::Steal(StealStickerSetState::StealStickerSetName)
    );
    assert_eq!(
        conversation.context,
        Context::Steal(StealContext { steal_sticker_set_name: None })
    );

    let before = conversation.clone();
    let (task, step) = get_sticker_set_name(&sticker("f", None));
    assert!(matches!(task, GetStickerSetName::Closing));
    assert!(same(&step, &says(Reply::StickerWithoutPack)));

    let (task, step) = get_sticker_set_name(&sticker("f", Some("source")));
    let lookup = Step::Call(Call::GetStickerSetUserId { set_name: "source".to_owned() });
    assert!(same(&step, &lookup));
    let (task, step) = task.resume(&mut conversation, Outcome::Failed(ApiErrorKind::Other));
    assert!(same(&step, &lookup));
    assert_eq!(conversation, before);
    let (task, step) = task.resume(&mut conversation, Outcome::StickerSetUserId(99));
    assert!(same(&step, &says(Reply::EnterNewTitle)));
    assert_eq!(
        conversation.state,
        State::Steal(StealStickerSetState::CreateNewStickerSet)
    );
    assert_eq!(
        conversation.context,
        Context::Steal(StealContext { steal_sticker_set_name: Some("source".to_owned()) })
    );
    let (_, step) = task.resume(&mut conversation, Outcome::Sent(message(1)));
    assert!(same(&step, &Step::Finish(Finish::Handled)));

    let mut stuck = before.clone();
    let (mut task, _) = get_sticker_set_name(&sticker("f", Some("source")));
    let mut lookups = 1;
    loop {
        let (next, step) = task.resume(&mut stuck, Outcome::Failed(ApiErrorKind::Other));
        task = next;
        match step {
            Step::Call(Call::GetStickerSetUserId { .. }) => lookups += 1,
            other => {
                assert!(same(&other, &answers(Reply::OwnerLookupFailed)));
                break;
            }
        }
    }
    assert_eq!(lookups, 7);
    assert_eq!(stuck, before);
    let (task, _) = get_sticker_set_name(&sticker("f", Some("source")));
    let (_, step) = task.resume(&mut stuck, Outcome::TimedOut);
    assert!(same(&step, &answers(Reply::OwnerLookupFailed)));
    assert_eq!(stuck, before);

    let waiting = conversation.clone();
    let (task, step) = create_new_sticker_set(&mut conversation, "", 7, StealPolicy::standard());
    assert!(matches!(task, CreateNewStickerSet::Closing));
    assert!(same(&step, &says(Reply::TitleTooShort)));
    assert_eq!(conversation, waiting);
    let (_, step) = create_new_sticker_set(&mut conversation, &"x".repeat(65), 7, StealPolicy::standard());
    assert!(same(&step, &says(Reply::TitleTooLong)));
    assert_eq!(conversation, waiting);

    let (task, step) = create_new_sticker_set(&mut conversation, &"x".repeat(64), 7, StealPolicy::standard());
    assert!(same(&step, &says(Reply::Stealing { title: "x".repeat(64) })));
    assert_eq!(conversation, waiting);
    let (task, step) = task.resume(&mut conversation, Outcome::Sent(message(1)));
    assert!(same(
        &step,
        &Step::Call(Call::GetStickerSet { name: "source".to_owned() })
    ));
    let (task, step) = task.resume(
        &mut conversation,
        Outcome::StickerSet(StickerSetInfo {
            title: "Original".to_owned(),
            stickers: vec![sticker("a", Some("source")), sticker("b", Some("source"))],
        }),
    );
    assert!(same(&step, &Step::Call(Call::GetBotUsername)));
    let (task, step) =
        task.resume(&mut conversation, Outcome::BotUsername("my_bot".to_owned()));
    let name = match step {
        Step::Call(Call::CreateNewStickerSet { name, stickers, .. }) => {
            assert_eq!(stickers.len(), 2);
            name
        }
        other => panic!("unexpected step {other:?}"),
    };
    let (task, step) = task.resume(&mut conversation, Outcome::Done);
    assert!(same(
        &step,
        &Step::Call(Call::CreateSet {
            tg_id: 7,
            short_name: name.clone(),
            title: "x".repeat(64)
        })
    ));
    assert_eq!(conversation, waiting);
    let (task, step) = task.resume(&mut conversation, Outcome::Stored(Ok(())));
    assert!(same(
        &step,
        &says(Reply::Stolen {
            title: "x".repeat(64),
            name: name.clone(),
            link: format!("t.me/addstickers/{name}"),
            original_title: "Original".to_owned(),
            original_link: "t.me/addstickers/source".to_owned(),
        })
    ));
    assert_eq!(conversation, idle());
    let (task, step) = task.resume(&mut conversation, Outcome::Sent(message(2)));
    assert!(same(&step, &Step::Call(Call::DeleteMessage { message: message(1) })));
    let (task, step) = task.resume(&mut conversation, Outcome::Done);
    assert!(same(&step, &Step::Finish(Finish::Handled)));
    assert!(matches!(task, CreateNewStickerSet::Over));
    assert_eq!(conversation, idle());
}

#[test]
fn steal_without_a_chosen_pack_is_an_internal_error() {
    let mut conversation = Conversation {
        state: State::Steal(StealStickerSetState::CreateNewStickerSet),
        context: Context::Steal(StealContext { steal_sticker_set_name: None }),
    };
    let (task, step) = create_new_sticker_set(&mut conversation, "title", 7, StealPolicy::standard());
    assert!(matches!(task, CreateNewStickerSet::Over));
    assert!(matches!(
        step,
        Step::Finish(Finish::Failed(HandlerError::MissingValue("steal_sticker_set_name")))
    ));
    assert_eq!(conversation, idle());
}

#[test]
fn failed_copy_is_reported_and_notice_stays() {
    let waiting = Conversation {
        state: State::Steal(StealStickerSetState::CreateNewStickerSet),
        context: Context::Steal(StealContext {
            steal_sticker_set_name: Some("source".to_owned()),
        }),
    };
    let mut conversation = waiting.clone();
    let (task, _) = create_new_sticker_set(&mut conversation, "title", 7, StealPolicy::standard());
    let (task, _) = task.resume(&mut conversation, Outcome::Sent(message(1)));
    assert_eq!(conversation, waiting);
    let (task, step) = task.resume(
        &mut conversation,
        Outcome::Failed(ApiErrorKind::StickerSetInvalid),
    );
    assert!(same(&step, &says(Reply::CreateFailed)));
    assert!(matches!(task, CreateNewStickerSet::Closing));
    assert_eq!(conversation, idle());
    let (_, step) = task.resume(&mut conversation, Outcome::Sent(message(2)));
    assert!(same(&step, &Step::Finish(Finish::Handled)));

    let mut conversation = waiting.clone();
    let (task, _) = create_new_sticker_set(&mut conversation, "title", 7, StealPolicy::standard());
    let (_, step) = task.resume(&mut conversation, Outcome::Failed(ApiErrorKind::Other));
    assert!(matches!(
        step,
        Step::Finish(Finish::Failed(HandlerError::Telegram(ApiErrorKind::Other)))
    ));
    assert_eq!(conversation, waiting);
}

fn pack(count: usize) -> Outcome {
    Outcome::StickerSet(StickerSetInfo {
        title: "Mine".to_owned(),
        stickers: (0..count).map(|i| sticker(&format!("s{i}"), Some("mine_by_my_bot"))).collect(),
    })
}

#[test]
fn add_flow_accepts_the_owner_of_a_pack_of_the_bot() {
    let mut conversation = Conversation::new();
    let step = add_stickers_handler(&mut conversation);
    assert!(same(&step, &says(Reply::SendYourStolenPack)));
    assert_eq!(
        conversation,
        Conversation {
            state: State::Add(AddStickerState::GetStolenStickerSet),
            context: Context::Add(AddContext {
                stolen_sticker_set: None,
                stickers_to_add: Vec::new()
            }),
        }
    );

    let (task, step) = get_stolen_sticker_set(&sticker("f", None), 7);
    assert!(matches!(task, GetStolenStickerSet::Closing));
    assert!(same(&step, &says(Reply::StickerWithoutPack)));

    let (task, step) = get_stolen_sticker_set(&sticker("f", Some("mine_by_my_bot")), 7);
    assert!(same(
        &step,
        &Step::Call(Call::GetStickerSet { name: "mine_by_my_bot".to_owned() })
    ));
    let (task, step) = task.resume(&mut conversation, pack(118));
    assert!(same(&step, &Step::Call(Call::GetBotUsername)));
    let (task, step) = task.resume(&mut conversation, Outcome::BotUsername("my_bot".to_owned()));
    let lookup = Step::Call(Call::GetStickerSetUserId { set_name: "mine_by_my_bot".to_owned() });
    assert!(same(&step, &lookup));
    let (task, step) = task.resume(&mut conversation, Outcome::Failed(ApiErrorKind::Other));
    assert!(same(&step, &lookup));
    let (task, step) = task.resume(&mut conversation, Outcome::StickerSetUserId(7));
    assert!(same(
        &step,
        &Step::Call(Call::CreateSet {
            tg_id: 7,
            short_name: "mine_by_my_bot".to_owned(),
            title: "Mine".to_owned()
        })
    ));
    let (task, step) = task.resume(&mut conversation, Outcome::Stored(Ok(())));
    assert!(same(
        &step,
        &answers(Reply::PackCapacity { length: 118, remaining: 2 })
    ));
    assert_eq!(
        conversation.state,
        State::Add(AddStickerState::GetStolenStickerSet)
    );
    let (task, step) = task.resume(&mut conversation, Outcome::Sent(message(3)));
    assert!(same(&step, &says(Reply::SendStickersToAdd)));
    assert_eq!(
        conversation,
        Conversation {
            state: State::Add(AddStickerState::GetStickersToAdd),
            context: Context::Add(AddContext {
                stolen_sticker_set: Some(StolenSet {
                    name: "mine_by_my_bot".to_owned(),
                    title: "Mine".to_owned()
                }),
                stickers_to_add: Vec::new()
            }),
        }
    );
    let (task, step) = task.resume(&mut conversation, Outcome::Sent(message(4)));
    assert!(same(&step, &Step::Call(Call::Sleep { millis: 15000 })));
    let (task, step) = task.resume(&mut conversation, Outcome::Done);
    assert!(same(&step, &Step::Call(Call::DeleteMessage { message: message(3) })));
    let (task, step) = task.resume(&mut conversation, Outcome::Done);
    assert!(same(&step, &Step::Finish(Finish::Handled)));
    assert!(matches!(task, GetStolenStickerSet::Over));
}

fn checked_up_to_owner(name: &str, user_id: i64, length: usize) -> GetStolenStickerSet {
    let mut conversation = Conversation::new();
    let (task, _) = get_stolen_sticker_set(&sticker("f", Some(name)), user_id);
    let (task, _) = task.resume(
        &mut conversation,
        Outcome::StickerSet(StickerSetInfo {
            title: "Mine".to_owned(),
            stickers: (0..length).map(|i| sticker(&format!("s{i}"), Some(name))).collect(),
        }),
    );
    let (task, _) = task.resume(&mut conversation, Outcome::BotUsername("my_bot".to_owned()));
    task
}

#[test]
fn add_flow_refuses_what_it_must() {
    let mut conversation = Conversation::new();
    let (task, _) = get_stolen_sticker_set(&sticker("f", Some("mine_by_my_bot")), 7);
    let (_, step) = task.resume(&mut conversation, Outcome::Failed(ApiErrorKind::Other));
    assert!(same(&step, &says(Reply::TrySendStickerAgain)));

    let (task, _) = get_stolen_sticker_set(&sticker("f", Some("foreign")), 7);
    let (task, _) = task.resume(&mut conversation, pack(1));
    let (task, step) = task.resume(&mut conversation, Outcome::BotUsername("my_bot".to_owned()));
    assert!(same(&step, &says(Reply::NotStolenByThisBot)));
    assert!(matches!(task, GetStolenStickerSet::Closing));

    let task = checked_up_to_owner("mine_by_my_bot", 7, 3);
    let (task, _) = task.resume(&mut conversation, Outcome::StickerSetUserId(8));
    let (_, step) = task.resume(&mut conversation, Outcome::Stored(Ok(())));
    assert!(same(&step, &says(Reply::NotOwner)));

    let task = checked_up_to_owner("mine_by_my_bot", 7, 120);
    let (task, _) = task.resume(&mut conversation, Outcome::StickerSetUserId(7));
    let (_, step) = task.resume(&mut conversation, Outcome::Stored(Ok(())));
    assert!(same(&step, &answers(Reply::PackFull)));

    let task = checked_up_to_owner("mine_by_my_bot", 7, 3);
    let (_, step) = task.resume(&mut conversation, Outcome::TimedOut);
    assert!(same(&step, &answers(Reply::OwnerLookupFailed)));

    let task = checked_up_to_owner("mine_by_my_bot", 7, 3);
    let (task, _) = task.resume(&mut conversation, Outcome::StickerSetUserId(7));
    let (_, step) = task.resume(
        &mut conversation,
        Outcome::Stored(Err(TransactionKind::rollback_err(RollbackError::new(
            "x".to_owned(),
        )))),
    );
    assert!(matches!(
        step,
        Step::Finish(Finish::Failed(HandlerError::Database(_)))
    ));
    assert_eq!(conversation, idle());
}

#[test]
fn owner_is_looked_up_seven_times_at_most() {
    let mut conversation = Conversation::new();
    let mut task = checked_up_to_owner("mine_by_my_bot", 7, 3);
    let mut lookups = 1;
    loop {
        let (next, step) = task.resume(&mut conversation, Outcome::Failed(ApiErrorKind::Other));
        task = next;
        match step {
            Step::Call(Call::GetStickerSetUserId { .. }) => lookups += 1,
            other => {
                assert!(same(&other, &answers(Reply::OwnerLookupFailed)));
                break;
            }
        }
    }
    assert_eq!(lookups, 7);
}

fn collecting(buffer: usize) -> Conversation {
    Conversation {
        state: State::Add(AddStickerState::GetStickersToAdd),
        context: Context::Add(AddContext {
            stolen_sticker_set: Some(StolenSet {
                name: "mine_by_my_bot".to_owned(),
                title: "Mine".to_owned(),
            }),
            stickers_to_add: (0..buffer).map(|i| sticker(&format!("b{i}"), None)).collect(),
        }),
    }
}

fn buffer(conversation: &Conversation) -> Vec<String> {
    match &conversation.context {
        Context::Add(context) => context
            .stickers_to_add
            .iter()
            .map(|s| s.file_id.clone())
            .collect(),
        _ => Vec::new(),
    }
}

#[test]
fn stickers_are_collected_up_to_the_limit() {
    let mut conversation = collecting(1);
    let mut plain = sticker("new", None);
    plain.emoji = None;
    let (task, step) = get_stickers_to_add(&conversation, plain);
    assert!(matches!(task, GetStickersToAdd::Closing));
    assert!(same(&step, &answers(Reply::StickerWithoutEmoji)));

    let (task, step) = get_stickers_to_add(&conversation, sticker("new", None));
    assert!(same(
        &step,
        &Step::Call(Call::GetStickerSet { name: "mine_by_my_bot".to_owned() })
    ));
    let (task, step) = task.resume(&mut conversation, pack(118));
    assert!(same(&step, &answers(Reply::StickerProcessed)));
    assert_eq!(buffer(&conversation), vec!["b0", "new"]);
    let (_, step) = task.resume(&mut conversation, Outcome::Sent(message(1)));
    assert!(same(&step, &Step::Finish(Finish::Handled)));

    let (task, _) = get_stickers_to_add(&conversation, sticker("late", None));
    let (_, step) = task.resume(&mut conversation, pack(118));
    assert!(same(&step, &says(Reply::LimitReached)));
    assert_eq!(buffer(&conversation), vec!["b0", "new"]);

    let (task, _) = get_stickers_to_add(&conversation, sticker("late", None));
    let (_, step) = task.resume(&mut conversation, Outcome::Failed(ApiErrorKind::Other));
    assert!(matches!(
        step,
        Step::Finish(Finish::Failed(HandlerError::Telegram(ApiErrorKind::Other)))
    ));

    let (task, step) = get_stickers_to_add(&idle(), sticker("late", None));
    assert!(matches!(task, GetStickersToAdd::Over));
    assert!(matches!(
        step,
        Step::Finish(Finish::Failed(HandlerError::MissingValue("get_stolen_sticker_set")))
    ));
}

#[test]
fn collected_stickers_are_added_and_failures_reported() {
    let mut empty = collecting(0);
    let (task, step) = add_stickers_to_user_owned_sticker_set(&mut empty, 7);
    assert!(matches!(task, AddStickersToUserOwnedStickerSet::Closing));
    assert!(same(&step, &says(Reply::NoStickersSent)));
    assert_eq!(empty, collecting(0));

    let mut lost = idle();
    let (_, step) = add_stickers_to_user_owned_sticker_set(&mut lost, 7);
    assert!(matches!(
        step,
        Step::Finish(Finish::Failed(HandlerError::MissingValue("get_stolen_sticker_set")))
    ));

    let mut conversation = collecting(3);
    let (task, step) = add_stickers_to_user_owned_sticker_set(&mut conversation, 7);
    assert!(same(&step, &says(Reply::AddingStickers)));
    assert_eq!(conversation, collecting(0));
    let (mut task, mut step) = task.resume(&mut conversation, Outcome::Sent(message(1)));
    let mut added = Vec::new();
    let mut attempt = 0;
    loop {
        let outcome = match &step {
            Step::Call(Call::AddStickerToSet { user_id, name, sticker }) => {
                assert_eq!((*user_id, name.as_str()), (7, "mine_by_my_bot"));
                added.push(sticker.file_id.clone());
                attempt += 1;
                if attempt == 2 {
                    Outcome::Failed(ApiErrorKind::Other)
                } else {
                    Outcome::Done
                }
            }
            Step::Call(Call::Sleep { millis }) => {
                assert_eq!(*millis, 1001);
                Outcome::Done
            }
            _ => break,
        };
        assert_eq!(conversation, collecting(0));
        let (next, next_step) = task.resume(&mut conversation, outcome);
        task = next;
        step = next_step;
    }
    assert_eq!(added, vec!["b0", "b1", "b2"]);
    assert!(same(&step, &says(Reply::NotAllAdded)));
    assert_eq!(conversation, idle());
    let (task, step) = task.resume(&mut conversation, Outcome::Sent(message(2)));
    assert!(same(
        &step,
        &says(Reply::StickersAdded {
            title: "Mine".to_owned(),
            name: "mine_by_my_bot".to_owned()
        })
    ));
    let (task, step) = task.resume(&mut conversation, Outcome::Sent(message(3)));
    assert!(same(&step, &Step::Call(Call::DeleteMessage { message: message(1) })));
    let (_, step) = task.resume(&mut conversation, Outcome::Done);
    assert!(same(&step, &Step::Finish(Finish::Handled)));
    assert_eq!(conversation, idle());
}

#[test]
fn cancel_wipes_the_slate() {
    let mut conversation = collecting(4);
    let step = cancel_handler(&mut conversation);
    assert!(same(&step, &says(Reply::LastCommandCanceled)));
    assert_eq!(conversation, idle());
    assert!(matches!(after_cancel(Outcome::Sent(message(1))), Finish::Cancelled));
    assert!(matches!(
        after_cancel(Outcome::Failed(ApiErrorKind::Other)),
        Finish::Failed(HandlerError::Telegram(ApiErrorKind::Other))
    ));
    add_stickers_handler(&mut conversation);
    assert_eq!(
        conversation.state,
        State::Add(AddStickerState::GetStolenStickerSet)
    );
    assert!(buffer(&conversation).is_empty());

    let mut conversation = Conversation {
        state: State::Steal(StealStickerSetState::CreateNewStickerSet),
        context: Context::Steal(StealContext {
            steal_sticker_set_name: Some("source".to_owned()),
        }),
    };
    cancel_handler(&mut conversation);
    steal_sticker_set_handler(&mut conversation);
    assert_eq!(
        conversation,
        Conversation {
            state: State::Steal(StealStickerSetState::StealStickerSetName),
            context: Context::Steal(StealContext { steal_sticker_set_name: None }),
        }
    );
}

#[test]
fn start_and_source_end_what_went_on() {
    let mut conversation = collecting(2);
    let step = start_handler(&mut conversation, "Ann");
    assert!(same(&step, &says(Reply::Start { first_name: "Ann".to_owned() })));
    assert_eq!(conversation, idle());
    let mut conversation = collecting(2);
    let step = source_handler(&mut conversation);
    assert!(same(&step, &says(Reply::Source)));
    assert_eq!(conversation, idle());
    assert!(same(&process_non_sticker(), &says(Reply::SendSticker)));
    assert!(matches!(after_send(Outcome::Sent(message(1))), Finish::Handled));
    assert!(matches!(
        after_send(Outcome::Done),
        Finish::Failed(HandlerError::UnexpectedOutcome)
    ));
    assert!(matches!(after_work(Outcome::Done), Finish::Handled));
    assert!(matches!(
        after_work(Outcome::Failed(ApiErrorKind::Other)),
        Finish::Failed(HandlerError::Telegram(ApiErrorKind::Other))
    ));
}

#[test]
fn buttons_stand_five_to_a_row() {
    let rows = page_buttons(12);
    let labels: Vec<Vec<&str>> = rows
        .iter()
        .map(|row| row.iter().map(|button| button.text.as_str()).collect())
        .collect();
    assert_eq!(
        labels,
        vec![
            vec!["page 1", "Page 2", "Page 3", "Page 4", "Page 5"],
            vec!["page 6", "Page 7", "Page 8", "Page 9", "Page 10"],
            vec!["page 11", "Page 12"],
        ]
    );
    let data: Vec<String> = rows
        .iter()
        .flatten()
        .map(|button| button.callback_data.clone())
        .collect();
    let expected: Vec<String> = (1..=12).map(|page| page.to_string()).collect();
    assert_eq!(data, expected);
    assert!(page_buttons(0).is_empty());
    assert_eq!(page_buttons(5).len(), 1);

    let (pages, rows) = get_buttons(&sets(101), 50).unwrap();
    assert_eq!(pages, 3);
    assert_eq!(rows.len(), 1);
    assert_eq!(rows[0].len(), 3);
    let error = get_buttons(&[], 50).unwrap_err();
    assert_eq!(
        error.message(),
        "You don't have a single stolen sticker pack. Steal any sticker pack using the /stealpack command and it will appear in this list."
    );
    assert!(error.to_text().starts_with("Error occurded while getting buttons: You don't"));
}

#[test]
fn list_is_shown_and_remembered() {
    let mut conversation = collecting(1);
    let (task, step) = my_stickers_handler(&mut conversation, 5);
    assert!(same(&step, &Step::Call(Call::GetSets { tg_id: 5 })));
    assert_eq!(conversation, idle());
    let (task_empty, step) = MyStickers::AwaitSets.resume(&mut conversation, Outcome::Sets(Vec::new()));
    assert!(matches!(task_empty, MyStickers::Closing));
    assert!(same(&step, &says(Reply::NoStolenPacks)));

    let (task, step) = task.resume(&mut conversation, Outcome::Sets(sets(51)));
    match step {
        Step::Call(Call::SendMessage { reply: Reply::PacksPage { text, buttons }, quote }) => {
            assert!(!quote);
            assert!(text.starts_with("List of your stickers (1 page):\n<a href=\"t.me/addstickers/n0\">t0</a> | "));
            assert!(text.ends_with("<a href=\"t.me/addstickers/n49\">t49</a> | "));
            assert_eq!(buttons.len(), 1);
            assert_eq!(buttons[0].len(), 2);
        }
        other => panic!("unexpected step {other:?}"),
    }
    assert_eq!(conversation, idle());
    let (_, step) = task.resume(&mut conversation, Outcome::Sent(message(9)));
    assert!(same(&step, &Step::Finish(Finish::Handled)));
    assert_eq!(
        conversation,
        Conversation {
            state: State::List(MyStickersState::EditStickerSetsListMessage),
            context: Context::List(ListContext {
                message: Some(message(9)),
                pages_number: Some(2),
                previous_callback_query: None
            }),
        }
    );

    let (_, step) = MyStickers::AwaitSets.resume(
        &mut conversation,
        Outcome::Unavailable(RepoError::new("down".to_owned())),
    );
    assert!(matches!(
        step,
        Step::Finish(Finish::Failed(HandlerError::Repository(_)))
    ));
}

fn listing(pages: u32, previous: Option<&str>) -> Conversation {
    Conversation {
        state: State::List(MyStickersState::EditStickerSetsListMessage),
        context: Context::List(ListContext {
            message: Some(message(9)),
            pages_number: Some(pages),
            previous_callback_query: previous.map(str::to_owned),
        }),
    }
}

#[test]
fn same_button_twice_edits_once() {
    let mut conversation = listing(2, None);
    let (task, step) = process_button(&mut conversation, Some("2".to_owned()), 5);
    assert!(same(&step, &Step::Call(Call::GetSets { tg_id: 5 })));
    assert_eq!(conversation, listing(2, Some("2")));
    let (task, step) = task.resume(Outcome::Sets(sets(51)));
    match step {
        Step::Call(Call::EditMessage { message: edited, reply: Reply::PacksPage { text, buttons } }) => {
            assert_eq!(edited, message(9));
            assert_eq!(
                text,
                "List of your stickers (2 page):\n<a href=\"t.me/addstickers/n50\">t50</a> | "
            );
            assert_eq!(buttons, page_buttons(2));
        }
        other => panic!("unexpected step {other:?}"),
    }
    let (_, step) = task.resume(Outcome::Sent(message(9)));
    assert!(same(&step, &Step::Finish(Finish::Handled)));

    let (task, step) = process_button(&mut conversation, Some("2".to_owned()), 5);
    assert!(matches!(task, ProcessButton::Over));
    assert!(same(&step, &Step::Finish(Finish::Handled)));
    assert_eq!(conversation, listing(2, Some("2")));

    let (_, step) = process_button(&mut conversation, Some("1".to_owned()), 5);
    assert!(same(&step, &Step::Call(Call::GetSets { tg_id: 5 })));
    assert_eq!(conversation, listing(2, Some("1")));
}

#[test]
fn button_presses_that_lead_nowhere() {
    let mut conversation = listing(1, None);
    let (_, step) = process_button(&mut conversation, Some("1".to_owned()), 5);
    assert!(same(&step, &Step::Finish(Finish::Handled)));
    assert_eq!(conversation, listing(1, Some("1")));

    let mut conversation = listing(3, None);
    let (task, step) = process_button(&mut conversation, None, 5);
    assert!(matches!(task, ProcessButton::Closing));
    assert!(same(&step, &says(Reply::CallbackFailed)));
    assert_eq!(conversation, listing(3, None));

    let (_, step) = process_button(&mut conversation, Some("two".to_owned()), 5);
    assert!(matches!(
        step,
        Step::Finish(Finish::Failed(HandlerError::InvalidCallback))
    ));
    assert_eq!(conversation, listing(3, Some("two")));

    let (task, _) = process_button(&mut conversation, Some("2".to_owned()), 5);
    let (_, step) = task.resume(Outcome::Sets(sets(51)));
    assert!(matches!(
        step,
        Step::Finish(Finish::Failed(HandlerError::InvalidCallback))
    ));
    let (task, _) = process_button(&mut conversation, Some("3".to_owned()), 5);
    let (_, step) = task.resume(Outcome::Sets(sets(51)));
    match step {
        Step::Call(Call::EditMessage { reply: Reply::PacksPage { text, .. }, .. }) => {
            assert_eq!(text, "List of your stickers (3 page):\n")
        }
        other => panic!("unexpected step {other:?}"),
    }

    let mut lost = idle();
    let (_, step) = process_button(&mut lost, Some("3".to_owned()), 5);
    assert!(matches!(
        step,
        Step::Finish(Finish::Failed(HandlerError::MissingValue("pages_number")))
    ));
    let mut unnumbered = Conversation {
        state: State::List(MyStickersState::EditStickerSetsListMessage),
        context: Context::List(ListContext {
            message: None,
            pages_number: Some(3),
            previous_callback_query: None,
        }),
    };
    let (_, step) = process_button(&mut unnumbered, Some("3".to_owned()), 5);
    assert!(matches!(
        step,
        Step::Finish(Finish::Failed(HandlerError::MissingValue(
            "edit_sticker_sets_list_message"
        )))
    ));
}

#[test]
fn updates_reach_the_right_handler() {
    let text = |command| Update::Text { command };
    let idle = State::Idle;
    let naming = State::Steal(StealStickerSetState::CreateNewStickerSet);
    let sample = State::Steal(StealStickerSetState::StealStickerSetName);
    let owned = State::Add(AddStickerState::GetStolenStickerSet);
    let collecting = State::Add(AddStickerState::GetStickersToAdd);
    let listing = State::List(MyStickersState::EditStickerSetsListMessage);

    assert_eq!(dispatch(idle, text(None)), Some(Handler::Start));
    assert_eq!(dispatch(idle, Update::Sticker), Some(Handler::Start));
    assert_eq!(dispatch(idle, Update::Other), Some(Handler::Start));
    assert_eq!(dispatch(idle, text(Some(Command::Done))), Some(Handler::Start));
    assert_eq!(dispatch(idle, Update::CallbackQuery), None);
    for state in [idle, naming, sample, owned, collecting, listing] {
        assert_eq!(dispatch(state, text(Some(Command::Start))), Some(Handler::Start));
        assert_eq!(dispatch(state, text(Some(Command::Help))), Some(Handler::Start));
        assert_eq!(dispatch(state, text(Some(Command::Src))), Some(Handler::Source));
        assert_eq!(dispatch(state, text(Some(Command::Source))), Some(Handler::Source));
        assert_eq!(dispatch(state, text(Some(Command::Cancel))), Some(Handler::Cancel));
        assert_eq!(
            dispatch(state, text(Some(Command::StealPack))),
            Some(Handler::StealStickerSet)
        );
        assert_eq!(
            dispatch(state, text(Some(Command::AddStickers))),
            Some(Handler::AddStickers)
        );
        assert_eq!(
            dispatch(state, text(Some(Command::MyStickers))),
            Some(Handler::MyStickers)
        );
    }
    assert_eq!(dispatch(naming, text(None)), Some(Handler::CreateNewStickerSet));
    assert_eq!(
        dispatch(naming, text(Some(Command::Done))),
        Some(Handler::CreateNewStickerSet)
    );
    assert_eq!(dispatch(naming, Update::Sticker), None);
    assert_eq!(dispatch(sample, Update::Sticker), Some(Handler::GetStickerSetName));
    assert_eq!(dispatch(sample, text(None)), Some(Handler::ProcessNonSticker));
    assert_eq!(dispatch(sample, Update::Other), Some(Handler::ProcessNonSticker));
    assert_eq!(dispatch(owned, Update::Sticker), Some(Handler::GetStolenStickerSet));
    assert_eq!(
        dispatch(owned, text(Some(Command::Done))),
        Some(Handler::ProcessNonSticker)
    );
    assert_eq!(dispatch(collecting, Update::Sticker), Some(Handler::GetStickersToAdd));
    assert_eq!(
        dispatch(collecting, text(Some(Command::Done))),
        Some(Handler::AddStickersToUserOwnedStickerSet)
    );
    assert_eq!(dispatch(collecting, text(None)), Some(Handler::ProcessNonSticker));
    assert_eq!(dispatch(listing, Update::CallbackQuery), Some(Handler::ProcessButton));
    assert_eq!(dispatch(listing, text(None)), None);
    assert_eq!(dispatch(listing, Update::Other), None);
    assert_eq!(dispatch(collecting, Update::CallbackQuery), None);

    assert_eq!(Command::from_name("stealpack"), Some(Command::StealPack));
    assert_eq!(Command::from_name("addstickers"), Some(Command::AddStickers));
    assert_eq!(Command::from_name("mystickers"), Some(Command::MyStickers));
    assert_eq!(Command::from_name("done"), Some(Command::Done));
    assert_eq!(Command::from_name("start"), Some(Command::Start));
    assert_eq!(Command::from_name("help"), Some(Command::Help));
    assert_eq!(Command::from_name("src"), Some(Command::Src));
    assert_eq!(Command::from_name("source"), Some(Command::Source));
    assert_eq!(Command::from_name("cancel"), Some(Command::Cancel));
    assert_eq!(Command::from_name("Cancel"), None);
    let listed: Vec<(&str, Option<&str>)> = Command::listed()
        .iter()
        .map(|command| (command.name(), command.description()))
        .collect();
    assert_eq!(
        listed,
        vec![
            ("help", Some("Show help message")),
            ("source", Some("Show the source of the bot")),
            ("src", Some("Show the source of the bot")),
            ("stealpack", Some("Steal sticker pack")),
            ("addstickers", Some("Add stickers to a sticker pack stolen by this bot")),
            ("cancel", Some("Cancel last command")),
            ("mystickers", Some("List of your stolen stickers")),
        ]
    );
    assert_eq!(Command::Start.description(), None);
    assert_eq!(Command::Done.description(), None);
    for command in [Command::Start, Command::Done, Command::Help, Command::StealPack] {
        assert_eq!(Command::from_name(command.name()), Some(command));
    }
    assert_eq!(Command::from_name(""), None);
}

#[test]
fn reading_packs_has_three_outcomes() {
    assert!(matches!(sets_outcome(Ok(sets(2))), Outcome::Sets(list) if list == sets(2)));
    assert!(matches!(
        sets_outcome(Err(RepoKind::exception(SetTgIdNotExist::new(5, "none".to_owned())))),
        Outcome::Sets(list) if list.is_empty()
    ));
    assert!(matches!(
        sets_outcome(Err(RepoKind::unexpected(RepoError::new("down".to_owned())))),
        Outcome::Unavailable(error) if error.message() == "down"
    ));
}

#[test]
fn states_have_their_names() {
    assert_eq!(StealStickerSetState::StealStickerSetName.as_str(), "steal_sticker_set_name");
    assert_eq!(StealStickerSetState::CreateNewStickerSet.as_str(), "create_new_sticker_set");
    assert_eq!(AddStickerState::GetStolenStickerSet.as_str(), "get_stolen_sticker_set");
    assert_eq!(AddStickerState::GetStickersToAdd.as_str(), "get_stickers_to_add");
    assert_eq!(
        MyStickersState::EditStickerSetsListMessage.as_str(),
        "edit_sticker_sets_list_message"
    );
    assert_eq!(
        MyStickersState::StickerSetsListInlineKeyboardMarkup.as_str(),
        "sticker_sets_list_inline_keyboard_markup"
    );
    assert_eq!(MyStickersState::PreviousCallbackQuery.as_str(), "previous_callback_query");
    assert_eq!(MyStickersState::PagesNumber.as_str(), "pages_number");
}

#[test]
fn connection_is_renewed_after_ten_minutes() {
    assert_eq!(client_action(9), ClientAction::Reuse);
    assert_eq!(client_action(10), ClientAction::Reconnect);
    assert_eq!(client_action(-500), ClientAction::Reuse);
}

#[test]
fn vanished_packs_are_marked_as_deleted() {
    let (task, step) = deleted_sets(12, Some(5));
    assert!(matches!((task, step), (DeletedSets::Over, SweepStep::Pass)));
    let (task, step) = deleted_sets(13, None);
    assert!(matches!((task, step), (DeletedSets::Over, SweepStep::Skip)));
    let (task, step) = deleted_sets(13, Some(5));
    assert!(matches!(step, SweepStep::Call(Call::GetSets { tg_id: 5 })));
    let (mut task, mut step) = task.resume(Outcome::Sets(sets(7)));
    let mut asked = Vec::new();
    let mut marked = Vec::new();
    let mut pauses_after = Vec::new();
    loop {
        let outcome = match &step {
            SweepStep::Call(Call::GetStickerSet { name }) => {
                asked.push(name.clone());
                if name == "n1" || name == "n5" {
                    Outcome::Failed(ApiErrorKind::StickerSetInvalid)
                } else if name == "n2" {
                    Outcome::Failed(ApiErrorKind::Other)
                } else {
                    Outcome::StickerSet(StickerSetInfo {
                        title: "t".to_owned(),
                        stickers: Vec::new(),
                    })
                }
            }
            SweepStep::Call(Call::SetDeletedCol { short_name, deleted }) => {
                assert!(*deleted);
                marked.push(short_name.clone());
                Outcome::Stored(Ok(()))
            }
            SweepStep::Call(Call::Sleep { millis }) => {
                assert_eq!(*millis, 1010);
                pauses_after.push(asked.len() - 1);
                Outcome::Done
            }
            SweepStep::Pass => break,
            other => panic!("unexpected step {other:?}"),
        };
        let (next, next_step) = task.resume(outcome);
        task = next;
        step = next_step;
    }
    assert_eq!(asked, vec!["n0", "n1", "n2", "n3", "n4", "n5", "n6"]);
    assert_eq!(marked, vec!["n1", "n5"]);
    assert_eq!(pauses_after, vec![0, 5]);

    let (task, _) = deleted_sets(13, Some(5));
    let (_, step) = task.resume(Outcome::Sets(Vec::new()));
    assert!(matches!(step, SweepStep::Pass));
}
