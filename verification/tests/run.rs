use thumbnail_preloader::error::PreloadError;
use thumbnail_preloader::run::{Action, Event, Outcome, Run, Stage, THUMBNAIL_SIZE};
use thumbnail_preloader::text::report_line;

/// Feeds `events` to a fresh run; gives the run and the action that was
/// pending before each event, with the local failures that were logged.
fn drive(events: Vec<Event>) -> (Run, Vec<Action>, Vec<PreloadError>) {
    let mut run = Run::new();
    let mut actions = Vec::new();
    let mut logged = Vec::new();
    for event in events {
        actions.push(run.action());
        let step = run.step(event);
        run = step.run;
        if let Some(error) = step.logged {
            logged.push(error);
        }
    }
    (run, actions, logged)
}

fn setup(total: usize) -> Vec<Event> {
    vec![
        Event::Done,
        Event::Listed(total),
        Event::Done,
        Event::Done,
        Event::Done,
        Event::Done,
        Event::Done,
        Event::Done,
        Event::Done,
    ]
}

fn item_ok() -> Vec<Event> {
    vec![Event::Polled(false), Event::Done, Event::Done, Event::Done, Event::Done]
}

fn count(actions: &[Action], wanted: fn(&Action) -> bool) -> usize {
    actions.iter().filter(|a| wanted(a)).count()
}

fn is_forcer(a: &Action) -> bool {
    matches!(a, Action::ResolveItem { .. })
}

fn is_update(a: &Action) -> bool {
    matches!(a, Action::SetProgress { .. })
}

fn is_hide(a: &Action) -> bool {
    matches!(a, Action::HideDialog)
}

#[test]
fn new_run_starts_by_resolving_the_directory() {
    let run = Run::new();
    assert_eq!(run.stage, Stage::ResolvingDirectory);
    assert_eq!(run.action(), Action::ResolveDirectory);
    assert_eq!(run.total, 0);
    assert_eq!(run.index, 0);
    assert_eq!(run.failures, 0);
    assert!(!run.cancelled);
    assert_eq!(run.outcome(), Outcome::Unsettled);
}

#[test]
fn setup_actions_come_in_order() {
    let (run, actions, logged) = drive(setup(2));
    assert_eq!(
        actions,
        vec![
            Action::ResolveDirectory,
            Action::ListDirectory,
            Action::InitialiseCom,
            Action::CreateBindContext,
            Action::CreateThumbnailCache,
            Action::CreateDialog,
            Action::SetTitle,
            Action::SetSummary { total: 2 },
            Action::ShowDialog { estimate_time: true, minimizable: false },
        ]
    );
    assert!(logged.is_empty());
    assert_eq!(run.stage, Stage::Polling);
    assert_eq!(run.action(), Action::PollCancelled { index: 0 });
}

#[test]
fn three_files_all_resolvable() {
    let mut events = setup(3);
    for _ in 0..3 {
        events.extend(item_ok());
    }
    events.push(Event::Done);
    let (run, actions, logged) = drive(events);
    let updates: Vec<Action> = actions.iter().copied().filter(is_update).collect();
    assert_eq!(
        updates,
        vec![
            Action::SetProgress { current: 0, total: 3 },
            Action::SetProgress { current: 1, total: 3 },
            Action::SetProgress { current: 2, total: 3 },
        ]
    );
    assert_eq!(count(&actions, is_forcer), 3);
    assert_eq!(count(&actions, is_hide), 1);
    assert!(logged.is_empty());
    assert_eq!(run.stage, Stage::Finished);
    assert_eq!(run.action(), Action::Stop);
    match run.outcome() {
        Outcome::Completed { processed, total, failures, teardown } => {
            assert_eq!(report_line(processed, total), "processed 3 of 3");
            assert_eq!(failures, 0);
            assert_eq!(teardown, None);
        }
        other => panic!("unexpected outcome {:?}", other),
    }
}

#[test]
fn per_item_actions_name_the_item() {
    let mut events = setup(2);
    events.extend(item_ok());
    events.extend(vec![Event::Polled(false), Event::Done, Event::Done, Event::Done]);
    let (run, actions, _) = drive(events);
    assert_eq!(
        actions[9..].to_vec(),
        vec![
            Action::PollCancelled { index: 0 },
            Action::SetProgress { current: 0, total: 2 },
            Action::SetLabel { index: 0 },
            Action::ResolveItem { index: 0 },
            Action::GenerateThumbnail { index: 0, size: 72, force: true },
            Action::PollCancelled { index: 1 },
            Action::SetProgress { current: 1, total: 2 },
            Action::SetLabel { index: 1 },
            Action::ResolveItem { index: 1 },
        ]
    );
    assert_eq!(THUMBNAIL_SIZE, 72);
    assert_eq!(
        run.action(),
        Action::GenerateThumbnail { index: 1, size: 72, force: true }
    );
}

#[test]
fn cancellation_before_index_one() {
    let mut events = setup(3);
    events.extend(item_ok());
    events.push(Event::Polled(true));
    events.push(Event::Done);
    let (run, actions, logged) = drive(events);
    assert_eq!(count(&actions, is_forcer), 1);
    assert_eq!(actions.iter().copied().filter(is_forcer).collect::<Vec<_>>(), vec![
        Action::ResolveItem { index: 0 }
    ]);
    assert_eq!(count(&actions, is_update), 1);
    assert_eq!(count(&actions, is_hide), 1);
    assert!(logged.is_empty());
    assert!(run.cancelled);
    assert_eq!(run.fatal, None);
    assert_eq!(
        run.outcome(),
        Outcome::Completed { processed: 1, total: 3, failures: 0, teardown: None }
    );
}

#[test]
fn cancellation_before_the_first_file() {
    let mut events = setup(3);
    events.push(Event::Polled(true));
    let (run, actions, _) = drive(events);
    assert_eq!(run.stage, Stage::Hiding);
    assert_eq!(run.action(), Action::HideDialog);
    assert_eq!(count(&actions, is_forcer), 0);
    assert_eq!(count(&actions, is_update), 0);
    let done = run.step(Event::Done).run;
    assert_eq!(
        done.outcome(),
        Outcome::Completed { processed: 0, total: 3, failures: 0, teardown: None }
    );
}

#[test]
fn empty_directory_goes_straight_to_teardown() {
    let (run, actions, logged) = drive(setup(0));
    assert_eq!(run.stage, Stage::Hiding);
    assert_eq!(run.action(), Action::HideDialog);
    assert_eq!(count(&actions, is_forcer), 0);
    assert_eq!(count(&actions, is_update), 0);
    assert!(logged.is_empty());
    let mut events = setup(0);
    events.push(Event::Done);
    let (run, actions, _) = drive(events);
    assert_eq!(count(&actions, is_hide), 1);
    assert_eq!(
        run.outcome(),
        Outcome::Completed { processed: 0, total: 0, failures: 0, teardown: None }
    );
}

#[test]
fn shell_item_failure_is_logged_and_the_run_moves_on() {
    let mut events = setup(3);
    events.extend(item_ok());
    events.extend(vec![
        Event::Polled(false),
        Event::Done,
        Event::Done,
        Event::Failed("no such item".to_string()),
    ]);
    let (run, actions, logged) = drive(events);
    assert_eq!(logged, vec![PreloadError::FailedToCreateShellItem("no such item".to_string())]);
    assert_eq!(run.stage, Stage::Polling);
    assert_eq!(run.action(), Action::PollCancelled { index: 2 });
    assert_eq!(run.index, 2);
    assert_eq!(run.failures, 1);
    assert_eq!(run.fatal, None);
    assert_eq!(count(&actions, is_forcer), 2);
    let mut run = run;
    for event in item_ok() {
        run = run.step(event).run;
    }
    let run = run.step(Event::Done).run;
    assert_eq!(
        run.outcome(),
        Outcome::Completed { processed: 3, total: 3, failures: 1, teardown: None }
    );
}

#[test]
fn thumbnail_failure_on_the_last_file_is_local() {
    let mut events = setup(1);
    events.extend(vec![
        Event::Polled(false),
        Event::Done,
        Event::Done,
        Event::Done,
        Event::Failed("bad image".to_string()),
    ]);
    let (run, _, logged) = drive(events);
    assert_eq!(logged, vec![PreloadError::FailedToGenerateThumbnail("bad image".to_string())]);
    assert_eq!(run.stage, Stage::Hiding);
    assert_eq!(run.index, 1);
    assert_eq!(run.failures, 1);
    let run = run.step(Event::Done).run;
    assert_eq!(
        run.outcome(),
        Outcome::Completed { processed: 1, total: 1, failures: 1, teardown: None }
    );
}

fn fails_after(successes: usize, total: usize) -> Run {
    let mut events: Vec<Event> = setup(total).into_iter().take(successes).collect();
    events.push(Event::Failed("cause".to_string()));
    let (run, actions, logged) = drive(events);
    assert_eq!(count(&actions, is_forcer), 0);
    assert_eq!(count(&actions, is_update), 0);
    assert_eq!(count(&actions, is_hide), 0);
    assert!(logged.is_empty());
    assert_eq!(run.stage, Stage::Failed);
    assert_eq!(run.action(), Action::Stop);
    run
}

fn cause() -> String {
    "cause".to_string()
}

#[test]
fn invalid_directory_is_fatal() {
    let run = fails_after(0, 3);
    assert_eq!(run.outcome(), Outcome::Aborted(PreloadError::InvalidDirectory(cause())));
}

#[test]
fn unreadable_directory_is_fatal() {
    let run = fails_after(1, 3);
    assert_eq!(run.total, 0);
    assert_eq!(run.outcome(), Outcome::Aborted(PreloadError::FailedToReadDirectory(cause())));
}

#[test]
fn subsystem_failure_is_fatal() {
    let run = fails_after(2, 3);
    assert_eq!(run.outcome(), Outcome::Aborted(PreloadError::FailedToInitialiseCOM(cause())));
}

#[test]
fn bind_context_failure_is_fatal() {
    let run = fails_after(3, 3);
    assert_eq!(run.outcome(), Outcome::Aborted(PreloadError::FailedToCreateBindContext(cause())));
}

#[test]
fn thumbnail_cache_failure_is_fatal() {
    let run = fails_after(4, 3);
    assert_eq!(
        run.outcome(),
        Outcome::Aborted(PreloadError::FailedToCreateThumbnailCache(cause()))
    );
}

#[test]
fn dialog_creation_title_and_summary_failures_share_a_tag() {
    for successes in 5..8 {
        let run = fails_after(successes, 3);
        assert_eq!(
            run.outcome(),
            Outcome::Aborted(PreloadError::FailedToCreateProgressDialog(cause()))
        );
    }
}

#[test]
fn show_failure_is_fatal() {
    let run = fails_after(8, 3);
    assert_eq!(
        run.outcome(),
        Outcome::Aborted(PreloadError::FailedToShowProgressDialog(cause()))
    );
}

#[test]
fn progress_update_failure_aborts_the_loop() {
    let mut events = setup(3);
    events.extend(item_ok());
    events.extend(vec![Event::Polled(false), Event::Failed(cause())]);
    let (run, actions, _) = drive(events);
    assert_eq!(run.stage, Stage::Failed);
    assert_eq!(run.action(), Action::Stop);
    assert_eq!(run.index, 1);
    assert_eq!(count(&actions, is_forcer), 1);
    assert_eq!(count(&actions, is_hide), 0);
    assert_eq!(
        run.outcome(),
        Outcome::Aborted(PreloadError::FailedToUpdateProgressDialog(cause()))
    );
}

#[test]
fn label_update_failure_aborts_the_loop() {
    let mut events = setup(2);
    events.extend(vec![Event::Polled(false), Event::Done, Event::Failed(cause())]);
    let (run, actions, _) = drive(events);
    assert_eq!(count(&actions, is_forcer), 0);
    assert_eq!(
        run.outcome(),
        Outcome::Aborted(PreloadError::FailedToUpdateProgressDialog(cause()))
    );
}

#[test]
fn teardown_failure_is_reported_and_the_result_stands() {
    let mut events = setup(1);
    events.extend(item_ok());
    events.push(Event::Failed(cause()));
    let (run, actions, logged) = drive(events);
    assert_eq!(count(&actions, is_hide), 1);
    assert!(logged.is_empty());
    assert_eq!(run.stage, Stage::Finished);
    assert_eq!(run.fatal, None);
    assert_eq!(
        run.outcome(),
        Outcome::Completed {
            processed: 1,
            total: 1,
            failures: 0,
            teardown: Some(PreloadError::FailedToHideProgressDialog(cause())),
        }
    );
}

#[test]
fn an_answer_that_is_not_awaited_changes_nothing() {
    let run = Run::new();
    assert!(!run.awaits(&Event::Listed(4)));
    assert!(!run.awaits(&Event::Polled(true)));
    assert!(run.awaits(&Event::Done));
    let step = run.clone().step(Event::Listed(4));
    assert_eq!(step.run, run);
    assert_eq!(step.logged, None);
    let (polling, _, _) = drive(setup(2));
    assert!(!polling.awaits(&Event::Done));
    assert!(!polling.awaits(&Event::Failed(cause())));
    assert_eq!(polling.clone().step(Event::Failed(cause())).run, polling);
    let listing = Run::new().step(Event::Done).run;
    assert!(!listing.awaits(&Event::Done));
    assert_eq!(listing.clone().step(Event::Done).run, listing);
}

#[test]
fn a_run_that_is_over_takes_no_answer() {
    let mut events = setup(0);
    events.push(Event::Done);
    let (finished, _, _) = drive(events);
    for event in [Event::Done, Event::Failed(cause()), Event::Listed(1), Event::Polled(true)] {
        assert!(!finished.awaits(&event));
        assert_eq!(finished.clone().step(event).run, finished);
    }
    let failed = Run::new().step(Event::Failed(cause())).run;
    assert_eq!(failed.clone().step(Event::Done).run, failed);
}

#[test]
fn same_answers_give_the_same_run() {
    let mut events = setup(2);
    events.extend(item_ok());
    events.extend(vec![
        Event::Polled(false),
        Event::Done,
        Event::Done,
        Event::Failed("x".to_string()),
        Event::Done,
    ]);
    let first = drive(events.clone());
    let second = drive(events);
    assert_eq!(first, second);
    assert_eq!(first.0.stage, Stage::Finished);
    assert_eq!(first.2.len(), 1);
}

#[test]
fn index_never_passes_total() {
    let mut events = setup(2);
    for _ in 0..5 {
        events.extend(item_ok());
    }
    let mut run = Run::new();
    for event in events {
        run = run.step(event).run;
        assert!(run.index <= run.total);
        assert!(run.failures <= run.index);
    }
    assert_eq!(run.stage, Stage::Finished);
    assert_eq!(run.index, 2);
}

#[test]
fn replay_all_takes_one_step_for_each_answer() {
    let mut events = setup(2);
    events.extend(vec![
        Event::Polled(false),
        Event::Done,
        Event::Done,
        Event::Failed("first".to_string()),
        Event::Polled(false),
        Event::Done,
        Event::Done,
        Event::Done,
        Event::Failed("second".to_string()),
        Event::Done,
    ]);
    let (run, _, logged) = drive(events.clone());
    let replayed = Run::new().replay_all(events);
    assert_eq!(replayed.run, run);
    assert_eq!(replayed.logged, logged);
    assert_eq!(
        replayed.logged,
        vec![
            PreloadError::FailedToCreateShellItem("first".to_string()),
            PreloadError::FailedToGenerateThumbnail("second".to_string()),
        ]
    );
    assert_eq!(
        replayed.run.outcome(),
        Outcome::Completed { processed: 2, total: 2, failures: 2, teardown: None }
    );
    let nothing = Run::new().replay_all(Vec::new());
    assert_eq!(nothing.run, Run::new());
    assert!(nothing.logged.is_empty());
}

#[test]
fn well_formed_accepts_every_state_of_a_run_and_rejects_a_made_up_one() {
    let mut events = setup(2);
    events.extend(item_ok());
    events.extend(vec![Event::Polled(false), Event::Done, Event::Done, Event::Failed(cause())]);
    events.push(Event::Failed(cause()));
    let mut run = Run::new();
    assert!(run.well_formed());
    for event in events {
        run = run.step(event).run;
        assert!(run.well_formed());
    }
    assert_eq!(run.stage, Stage::Finished);
    let mut past_the_end = Run::new();
    past_the_end.index = 1;
    assert!(!past_the_end.well_formed());
    let mut polling_nothing = Run::new();
    polling_nothing.stage = Stage::Polling;
    assert!(!polling_nothing.well_formed());
    let mut failed_without_cause = Run::new();
    failed_without_cause.stage = Stage::Failed;
    assert!(!failed_without_cause.well_formed());
    let mut local_as_fatal = Run::new();
    local_as_fatal.stage = Stage::Failed;
    local_as_fatal.fatal = Some(PreloadError::FailedToCreateShellItem(cause()));
    assert!(!local_as_fatal.well_formed());
    let failed = Run::new().step(Event::Failed(cause())).run;
    assert!(failed.well_formed());
}
