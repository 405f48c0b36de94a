use steal_stickers_bot::bot_commands::handlers::common::{
    add_stickers, api_error_kind, AddStep, ApiErrorKind, Awaiting, Call, HandlerError, Outcome,
    StickerSetInfo,
};
use steal_stickers_bot::application::common::exceptions::{CommitError, TransactionKind};
use steal_stickers_bot::bot_commands::handlers::steal::{
    Steal, StealFailure, StealPhase, StealPolicy, StealReport, StealStep,
};
use steal_stickers_bot::domain::entities::sticker::{Sticker, StickerFormat};

fn sticker(file_id: &str) -> Sticker {
    Sticker {
        file_id: file_id.to_owned(),
        set_name: Some("source".to_owned()),
        emoji: Some("🙂".to_owned()),
        is_animated: false,
        is_video: false,
    }
}

fn stickers(count: usize) -> Vec<Sticker> {
    (0..count).map(|i| sticker(&format!("file{i}"))).collect()
}

fn added_file(call: &Call) -> String {
    match call {
        Call::AddStickerToSet { sticker, .. } => sticker.file_id.clone(),
        other => panic!("not an add call: {other:?}"),
    }
}

#[test]
fn empty_list_is_an_error() {
    let error = add_stickers(1, "pack", Vec::new()).unwrap_err();
    assert_eq!(
        error.to_text(),
        "Error occurded while adding stickers: list is empty"
    );
}

#[test]
fn failed_sticker_does_not_stop_the_run() {
    let (mut run, first) = add_stickers(42, "pack_by_bot", stickers(3)).unwrap();
    match &first {
        Call::AddStickerToSet { user_id, name, sticker } => {
            assert_eq!(*user_id, 42);
            assert_eq!(name, "pack_by_bot");
            assert_eq!(sticker.file_id, "file0");
            assert_eq!(sticker.format, StickerFormat::Static);
            assert_eq!(sticker.emoji_list, vec!["🙂".to_owned()]);
        }
        other => panic!("unexpected call {other:?}"),
    }
    let answers = [
        Outcome::Done,
        Outcome::Failed(ApiErrorKind::Other),
        Outcome::Done,
    ];
    let mut sent = vec![added_file(&first)];
    let mut pauses = 0;
    let mut finished = None;
    let mut answers = answers.into_iter();
    let mut outcome = answers.next().unwrap();
    loop {
        let (next, step) = run.resume(outcome);
        run = next;
        match step {
            AddStep::Call(Call::Sleep { millis }) => {
                assert_eq!(run.awaiting, Awaiting::Pause);
                assert!(millis >= 1000);
                pauses += 1;
                outcome = Outcome::Done;
            }
            AddStep::Call(call) => {
                sent.push(added_file(&call));
                outcome = answers.next().unwrap();
            }
            AddStep::Finished { all_added } => {
                finished = Some(all_added);
                break;
            }
        }
    }
    assert_eq!(sent, vec!["file0", "file1", "file2"]);
    assert_eq!(pauses, 3);
    assert_eq!(run.results, vec![true, false, true]);
    assert_eq!(finished, Some(false));
}

#[test]
fn run_without_failures_adds_all() {
    let (mut run, _) = add_stickers(42, "pack_by_bot", stickers(2)).unwrap();
    let mut finished = None;
    for _ in 0..10 {
        let (next, step) = run.resume(Outcome::Done);
        run = next;
        if let AddStep::Finished { all_added } = step {
            finished = Some(all_added);
            break;
        }
    }
    assert_eq!(finished, Some(true));
    assert_eq!(run.results, vec![true, true]);
}

fn policy(max_attempts: u32) -> StealPolicy {
    StealPolicy::new(max_attempts, 11, 50).unwrap()
}

#[test]
fn policy_needs_a_name_that_can_be_made() {
    assert!(StealPolicy::new(3, 0, 50).is_none());
    assert!(StealPolicy::new(3, usize::MAX, 50).is_none());
    let policy = StealPolicy::new(3, 4, 2).unwrap();
    assert_eq!(
        (policy.max_attempts(), policy.name_length(), policy.batch_ceiling()),
        (3, 4, 2)
    );
    let standard = StealPolicy::standard();
    assert_eq!(
        (standard.max_attempts(), standard.name_length(), standard.batch_ceiling()),
        (8, 11, 50)
    );
}

#[test]
fn policy_shapes_the_copy() {
    let (steal, _) = Steal::start("source", 77, "T", StealPolicy::new(3, 4, 2).unwrap());
    let (steal, _) = steal.resume(source(3));
    let (steal, step) = steal.resume(Outcome::BotUsername("b".to_owned()));
    match expect_call(step) {
        Call::CreateNewStickerSet { name, stickers, .. } => {
            assert_eq!(name.len(), 4 + "_by_b".len());
            assert_eq!(stickers.len(), 2);
        }
        other => panic!("unexpected call {other:?}"),
    }
    let (steal, _) = steal.resume(Outcome::Done);
    let (steal, step) = steal.resume(Outcome::Stored(Ok(())));
    assert_eq!(expect_call(step), Call::Sleep { millis: 1001 });
    let (_, step) = steal.resume(Outcome::Done);
    assert_eq!(added_file(&expect_call(step)), "file2");
}

fn source(count: usize) -> Outcome {
    Outcome::StickerSet(StickerSetInfo {
        title: "Original".to_owned(),
        stickers: stickers(count),
    })
}

fn expect_call(step: StealStep) -> Call {
    match step {
        StealStep::Call(call) => call,
        other => panic!("expected a call, got {other:?}"),
    }
}

fn created_name(call: &Call) -> String {
    match call {
        Call::CreateNewStickerSet { name, .. } => name.clone(),
        other => panic!("not a create call: {other:?}"),
    }
}

#[test]
fn three_stickers_are_copied_whatever_names_were_taken() {
    for collisions in 0..4 {
        let (steal, first) = Steal::start("source", 77, "T", policy(5));
        assert_eq!(first, Call::GetStickerSet { name: "source".to_owned() });
        let (steal, step) = steal.resume(source(3));
        assert_eq!(expect_call(step), Call::GetBotUsername);
        let (mut steal, step) = steal.resume(Outcome::BotUsername("my_bot".to_owned()));
        let mut call = expect_call(step);
        let mut names = vec![created_name(&call)];
        for _ in 0..collisions {
            let (next, step) = steal.resume(Outcome::Failed(ApiErrorKind::ShortNameOccupied));
            steal = next;
            call = expect_call(step);
            names.push(created_name(&call));
        }
        match &call {
            Call::CreateNewStickerSet { user_id, name, title, stickers } => {
                assert_eq!(*user_id, 77);
                assert!(name.ends_with("_by_my_bot"));
                assert_eq!(title, "T");
                let files: Vec<&str> = stickers.iter().map(|s| s.file_id.as_str()).collect();
                assert_eq!(files, vec!["file0", "file1", "file2"]);
            }
            other => panic!("unexpected call {other:?}"),
        }
        match &steal.phase {
            StealPhase::Creating { attempts, .. } => assert_eq!(*attempts, collisions + 1),
            other => panic!("unexpected phase {other:?}"),
        }
        let accepted = names.last().unwrap().clone();
        let (steal, step) = steal.resume(Outcome::Done);
        assert_eq!(
            expect_call(step),
            Call::CreateSet {
                tg_id: 77,
                short_name: accepted.clone(),
                title: "T".to_owned()
            }
        );
        let (steal, step) = steal.resume(Outcome::Stored(Ok(())));
        match step {
            StealStep::Finished(StealReport::Success(created)) => {
                assert_eq!(created.name, accepted);
                assert_eq!(created.link, format!("t.me/addstickers/{accepted}"));
                assert_eq!(created.title, "T");
                assert_eq!(created.original_title, "Original");
            }
            other => panic!("unexpected step {other:?}"),
        }
        assert!(matches!(steal.phase, StealPhase::Over));
        let (_, step) = steal.resume(Outcome::Done);
        assert!(matches!(
            step,
            StealStep::Failed(HandlerError::UnexpectedOutcome)
        ));
    }
}

#[test]
fn copying_gives_up_when_names_run_out() {
    let (steal, _) = Steal::start("source", 77, "T", policy(2));
    let (steal, _) = steal.resume(source(3));
    let (steal, _) = steal.resume(Outcome::BotUsername("my_bot".to_owned()));
    let (steal, step) = steal.resume(Outcome::Failed(ApiErrorKind::ShortNameOccupied));
    assert!(matches!(step, StealStep::Call(Call::CreateNewStickerSet { .. })));
    let (steal, step) = steal.resume(Outcome::Failed(ApiErrorKind::ShortNameOccupied));
    assert!(matches!(
        step,
        StealStep::Finished(StealReport::Failure(StealFailure::NamesExhausted))
    ));
    assert!(matches!(steal.phase, StealPhase::Over));

    let (steal, _) = Steal::start("source", 77, "T", policy(0));
    let (steal, _) = steal.resume(source(3));
    let (_, step) = steal.resume(Outcome::BotUsername("my_bot".to_owned()));
    assert!(matches!(
        step,
        StealStep::Finished(StealReport::Failure(StealFailure::NamesExhausted))
    ));
}

#[test]
fn copying_fails_without_source_or_name_or_on_refusal() {
    let (steal, _) = Steal::start("source", 77, "T", policy(3));
    let (_, step) = steal.resume(Outcome::Failed(ApiErrorKind::StickerSetInvalid));
    assert!(matches!(
        step,
        StealStep::Finished(StealReport::Failure(StealFailure::SourceUnavailable))
    ));

    let (steal, _) = Steal::start("source", 77, "T", policy(3));
    let (steal, _) = steal.resume(source(1));
    let (_, step) = steal.resume(Outcome::Failed(ApiErrorKind::Other));
    assert!(matches!(
        step,
        StealStep::Finished(StealReport::Failure(StealFailure::IdentityUnavailable))
    ));

    let (steal, _) = Steal::start("source", 77, "T", policy(3));
    let (steal, _) = steal.resume(source(1));
    let (steal, _) = steal.resume(Outcome::BotUsername("my_bot".to_owned()));
    let (_, step) = steal.resume(Outcome::Failed(ApiErrorKind::Other));
    assert!(matches!(
        step,
        StealStep::Finished(StealReport::Failure(StealFailure::CreationRefused))
    ));
}

#[test]
fn database_failure_after_creation_breaks_off() {
    let (steal, _) = Steal::start("source", 77, "T", policy(3));
    let (steal, _) = steal.resume(source(1));
    let (steal, _) = steal.resume(Outcome::BotUsername("my_bot".to_owned()));
    let (steal, _) = steal.resume(Outcome::Done);
    let (_, step) = steal.resume(Outcome::Stored(Err(TransactionKind::commit_err(
        CommitError::new("gone".to_owned()),
    ))));
    match step {
        StealStep::Failed(HandlerError::Database(error)) => {
            assert_eq!(error.to_text(), "Commit transaction error: gone")
        }
        other => panic!("unexpected step {other:?}"),
    }
}

#[test]
fn long_pack_is_created_in_one_go_and_finished_one_by_one() {
    let (steal, _) = Steal::start("source", 77, "Big", policy(3));
    let (steal, _) = steal.resume(source(52));
    let (steal, step) = steal.resume(Outcome::BotUsername("my_bot".to_owned()));
    let create = expect_call(step);
    let name = created_name(&create);
    match &create {
        Call::CreateNewStickerSet { stickers, .. } => {
            assert_eq!(stickers.len(), 50);
            assert_eq!(stickers[49].file_id, "file49");
        }
        other => panic!("unexpected call {other:?}"),
    }
    let (steal, step) = steal.resume(Outcome::Done);
    assert!(matches!(expect_call(step), Call::CreateSet { .. }));
    let (steal, step) = steal.resume(Outcome::Stored(Ok(())));
    assert_eq!(expect_call(step), Call::Sleep { millis: 1001 });
    let (steal, step) = steal.resume(Outcome::Done);
    let call = expect_call(step);
    assert_eq!(added_file(&call), "file50");
    match &call {
        Call::AddStickerToSet { user_id, name: target, .. } => {
            assert_eq!(*user_id, 77);
            assert_eq!(target, &name);
        }
        other => panic!("unexpected call {other:?}"),
    }
    let (steal, step) = steal.resume(Outcome::Failed(ApiErrorKind::Other));
    assert_eq!(expect_call(step), Call::Sleep { millis: 1001 });
    let (steal, step) = steal.resume(Outcome::Done);
    assert_eq!(added_file(&expect_call(step)), "file51");
    let (steal, step) = steal.resume(Outcome::Done);
    assert_eq!(expect_call(step), Call::Sleep { millis: 1001 });
    let (_, step) = steal.resume(Outcome::Done);
    match step {
        StealStep::Finished(StealReport::Partial(created)) => {
            assert_eq!(created.name, name);
            assert_eq!(created.title, "Big");
        }
        other => panic!("unexpected step {other:?}"),
    }
}

#[test]
fn refusals_are_told_apart_by_their_words() {
    assert_eq!(
        api_error_kind(Some("Bad Request: SHORTNAME_OCCUPY_FAILED")),
        ApiErrorKind::ShortNameOccupied
    );
    assert_eq!(
        api_error_kind(Some("Bad Request: STICKERSET_INVALID")),
        ApiErrorKind::StickerSetInvalid
    );
    assert_eq!(
        api_error_kind(Some("Bad Request: something else")),
        ApiErrorKind::Other
    );
    assert_eq!(api_error_kind(None), ApiErrorKind::Other);
}
