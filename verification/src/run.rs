//! One run, as a state machine.
//!
//! A [`Run`] holds where the run stands. [`Run::action`] names what is to be
//! asked of the operating system next, and [`Run::step`] takes the answer and
//! moves on. The caller does the asking; every decision is made here.

use crate::error::{PreloadError, Severity};
use vstd::prelude::*;

verus! {

/// The edge length, in pixels, of the thumbnails that are forced.
pub const THUMBNAIL_SIZE: u32 = 72;

/// Where a run stands: each stage but the last two awaits the answer to the
/// action of the same row of [`Run::pending`].
#[derive(Clone, Copy, Debug, PartialEq, Eq, Structural)]
pub enum Stage {
    /// The target directory is being made canonical.
    ResolvingDirectory,
    /// The directory is being listed.
    ListingDirectory,
    /// The object subsystem is being initialised.
    InitialisingCom,
    /// The binding context is being created.
    CreatingBindContext,
    /// The thumbnail cache is being reached.
    CreatingThumbnailCache,
    /// The progress dialog is being created.
    CreatingDialog,
    /// The dialog is being given its title.
    SettingTitle,
    /// The dialog is being given its summary line.
    SettingSummary,
    /// The dialog is being shown.
    ShowingDialog,
    /// The dialog is being polled for a cancellation, before the file at `index`.
    Polling,
    /// The dialog's progress is being set for the file at `index`.
    SettingProgress,
    /// The dialog is being given the name of the file at `index`.
    SettingLabel,
    /// The file at `index` is being resolved to a shell item.
    ResolvingItem,
    /// The thumbnail of the file at `index` is being made.
    Generating,
    /// The dialog is being hidden.
    Hiding,
    /// The run is over and went as far as the work list or the user let it.
    Finished,
    /// The run is over, ended by a fatal failure.
    Failed,
}

/// What the caller is to do next.
#[derive(Clone, Copy, Debug, PartialEq, Eq, Structural)]
pub enum Action {
    /// Make the target directory canonical.
    ResolveDirectory,
    /// List the directory and keep the entries that can be made canonical.
    ListDirectory,
    /// Initialise the object subsystem.
    InitialiseCom,
    /// Create the binding context.
    CreateBindContext,
    /// Reach the local thumbnail cache.
    CreateThumbnailCache,
    /// Create the progress dialog.
    CreateDialog,
    /// Give the dialog its title.
    SetTitle,
    /// Give the dialog its summary line for `total` files.
    SetSummary { total: usize },
    /// Show the dialog; with `estimate_time` it estimates the time that is
    /// left, and unless `minimizable` it cannot be minimised.
    ShowDialog { estimate_time: bool, minimizable: bool },
    /// Ask the dialog whether the user has cancelled, before file `index`.
    PollCancelled { index: usize },
    /// Set the dialog's progress to `current` of `total`.
    SetProgress { current: usize, total: usize },
    /// Show the name of file `index` in the dialog.
    SetLabel { index: usize },
    /// Resolve the path of file `index` to a shell item.
    ResolveItem { index: usize },
    /// Request the thumbnail of file `index` at `size` pixels; with `force`,
    /// an entry that the cache already holds is made anew.
    GenerateThumbnail { index: usize, size: u32, force: bool },
    /// Hide the dialog.
    HideDialog,
    /// Nothing: the run is over.
    Stop,
}

/// The answer to an action.
#[derive(Clone, Debug, PartialEq, Eq)]
pub enum Event {
    /// The action succeeded.
    Done,
    /// The action failed, with the cause as the operating system worded it.
    Failed(String),
    /// The directory was listed and holds this many canonical entries.
    Listed(usize),
    /// The dialog was polled; `true` if the user has cancelled.
    Polled(bool),
}

/// The state of a run.
#[derive(Clone, Debug, PartialEq, Eq)]
pub struct Run {
    /// The stage that the run is in.
    pub stage: Stage,
    /// The length of the work list; 0 until the directory is listed.
    pub total: usize,
    /// The number of files that the run is through with.
    pub index: usize,
    /// How many of those files failed locally.
    pub failures: usize,
    /// Whether the user has cancelled.
    pub cancelled: bool,
    /// The failure that ended the run, if one did.
    pub fatal: Option<PreloadError>,
    /// The failure to hide the dialog, if hiding failed.
    pub teardown: Option<PreloadError>,
}

/// A run after one step, and the local failure that the step has to log.
#[derive(Clone, Debug, PartialEq, Eq)]
pub struct Step {
    /// The run after the step.
    pub run: Run,
    /// The local failure to log, if the step gave up a file.
    pub logged: Option<PreloadError>,
}

/// The result of a run that is over.
#[derive(Clone, Debug, PartialEq, Eq)]
pub enum Outcome {
    /// The run is not over yet.
    Unsettled,
    /// The run went through `processed` of `total` files, fewer than all of
    /// them only if it was cancelled; `teardown` holds the failure to hide the
    /// dialog, if there was one.
    Completed { processed: usize, total: usize, failures: usize, teardown: Option<PreloadError> },
    /// The run was ended by a fatal failure.
    Aborted(PreloadError),
}

/// The stages before the first file.
pub open spec fn is_setup(stage: Stage) -> bool {
    stage == Stage::ResolvingDirectory || stage == Stage::ListingDirectory || stage
        == Stage::InitialisingCom || stage == Stage::CreatingBindContext || stage
        == Stage::CreatingThumbnailCache || stage == Stage::CreatingDialog || stage
        == Stage::SettingTitle || stage == Stage::SettingSummary || stage == Stage::ShowingDialog
}

/// The stages that work on the file at `index`.
pub open spec fn is_item(stage: Stage) -> bool {
    stage == Stage::Polling || stage == Stage::SettingProgress || stage == Stage::SettingLabel
        || stage == Stage::ResolvingItem || stage == Stage::Generating
}

/// Whether `event` is an answer that `stage` awaits.
pub open spec fn awaited(stage: Stage, event: Event) -> bool {
    match stage {
        Stage::Finished | Stage::Failed => false,
        Stage::ListingDirectory => event is Listed || event is Failed,
        Stage::Polling => event is Polled,
        _ => event is Done || event is Failed,
    }
}

/// The failure that a failed action means at `stage`.
pub open spec fn failure_at(stage: Stage, cause: String) -> PreloadError {
    match stage {
        Stage::ResolvingDirectory => PreloadError::InvalidDirectory(cause),
        Stage::ListingDirectory => PreloadError::FailedToReadDirectory(cause),
        Stage::InitialisingCom => PreloadError::FailedToInitialiseCOM(cause),
        Stage::CreatingBindContext => PreloadError::FailedToCreateBindContext(cause),
        Stage::CreatingThumbnailCache => PreloadError::FailedToCreateThumbnailCache(cause),
        Stage::CreatingDialog | Stage::SettingTitle | Stage::SettingSummary =>
            PreloadError::FailedToCreateProgressDialog(cause),
        Stage::ShowingDialog => PreloadError::FailedToShowProgressDialog(cause),
        Stage::SettingProgress | Stage::SettingLabel =>
            PreloadError::FailedToUpdateProgressDialog(cause),
        Stage::ResolvingItem => PreloadError::FailedToCreateShellItem(cause),
        Stage::Generating => PreloadError::FailedToGenerateThumbnail(cause),
        _ => PreloadError::FailedToHideProgressDialog(cause),
    }
}

/// The stage that follows a successful action at `stage`, but for showing
/// the dialog and making a thumbnail, whose successor depends on the work
/// list.
pub open spec fn stage_after(stage: Stage) -> Stage {
    match stage {
        Stage::ResolvingDirectory => Stage::ListingDirectory,
        Stage::ListingDirectory => Stage::InitialisingCom,
        Stage::InitialisingCom => Stage::CreatingBindContext,
        Stage::CreatingBindContext => Stage::CreatingThumbnailCache,
        Stage::CreatingThumbnailCache => Stage::CreatingDialog,
        Stage::CreatingDialog => Stage::SettingTitle,
        Stage::SettingTitle => Stage::SettingSummary,
        Stage::SettingSummary => Stage::ShowingDialog,
        Stage::Polling => Stage::SettingProgress,
        Stage::SettingProgress => Stage::SettingLabel,
        Stage::SettingLabel => Stage::ResolvingItem,
        Stage::ResolvingItem => Stage::Generating,
        Stage::Hiding => Stage::Finished,
        other => other,
    }
}

/// The stage in which a run turns to the file at `index`: the dialog is
/// polled if there is such a file, and hidden if the list is exhausted.
pub open spec fn stage_before_item(index: int, total: int) -> Stage {
    if index < total {
        Stage::Polling
    } else {
        Stage::Hiding
    }
}

/// The run that `start` becomes by taking `events` in turn.
pub open spec fn replay(start: Run, events: Seq<Event>) -> Run
    decreases events.len(),
{
    if events.len() == 0 {
        start
    } else {
        replay(start, events.drop_last()).next(events.last())
    }
}

/// The local failures that are logged while `start` takes `events` in turn,
/// in the order in which they arise.
pub open spec fn logs(start: Run, events: Seq<Event>) -> Seq<PreloadError>
    decreases events.len(),
{
    if events.len() == 0 {
        Seq::empty()
    } else {
        let before = logs(start, events.drop_last());
        match replay(start, events.drop_last()).logged(events.last()) {
            Some(error) => before.push(error),
            None => before,
        }
    }
}

/// A run after a history, and the local failures that the history logged.
#[derive(Clone, Debug, PartialEq, Eq)]
pub struct Replayed {
    /// The run after the last answer.
    pub run: Run,
    /// The local failures, in the order in which they arose.
    pub logged: Vec<PreloadError>,
}

impl Run {
    /// The invariant of a run.
    pub open spec fn wf(self) -> bool {
        &&& self.index <= self.total
        &&& self.failures <= self.index
        &&& (self.stage == Stage::ResolvingDirectory || self.stage == Stage::ListingDirectory)
            ==> self.total == 0
        &&& is_setup(self.stage) ==> self.index == 0
        &&& is_item(self.stage) ==> self.index < self.total
        &&& self.cancelled ==> self.stage == Stage::Hiding || self.stage == Stage::Finished
        &&& (self.stage == Stage::Hiding || self.stage == Stage::Finished) && !self.cancelled
            ==> self.index == self.total
        &&& self.fatal is Some <==> self.stage == Stage::Failed
        &&& self.teardown is Some ==> self.stage == Stage::Finished
        &&& self.teardown is Some ==> self.teardown->0 is FailedToHideProgressDialog
        &&& self.fatal is Some ==> {
            let e = self.fatal->0;
            &&& e.severity_of() == Severity::Fatal
            &&& e.is_setup() ==> self.index == 0
            &&& !e.is_setup() ==> self.index < self.total
        }
    }

    /// A run before its first action.
    pub open spec fn initial() -> Run {
        Run {
            stage: Stage::ResolvingDirectory,
            total: 0,
            index: 0,
            failures: 0,
            cancelled: false,
            fatal: None,
            teardown: None,
        }
    }

    /// The action that the run awaits the answer to.
    pub open spec fn pending(self) -> Action {
        match self.stage {
            Stage::ResolvingDirectory => Action::ResolveDirectory,
            Stage::ListingDirectory => Action::ListDirectory,
            Stage::InitialisingCom => Action::InitialiseCom,
            Stage::CreatingBindContext => Action::CreateBindContext,
            Stage::CreatingThumbnailCache => Action::CreateThumbnailCache,
            Stage::CreatingDialog => Action::CreateDialog,
            Stage::SettingTitle => Action::SetTitle,
            Stage::SettingSummary => Action::SetSummary { total: self.total },
            Stage::ShowingDialog => Action::ShowDialog { estimate_time: true, minimizable: false },
            Stage::Polling => Action::PollCancelled { index: self.index },
            Stage::SettingProgress => Action::SetProgress {
                current: self.index,
                total: self.total,
            },
            Stage::SettingLabel => Action::SetLabel { index: self.index },
            Stage::ResolvingItem => Action::ResolveItem { index: self.index },
            Stage::Generating => Action::GenerateThumbnail {
                index: self.index,
                size: THUMBNAIL_SIZE,
                force: true,
            },
            Stage::Hiding => Action::HideDialog,
            Stage::Finished | Stage::Failed => Action::Stop,
        }
    }

    /// The run with the file at `index` behind it, `failed` telling whether
    /// that file failed locally.
    pub open spec fn past_item(self, failed: bool) -> Run {
        Run {
            stage: stage_before_item(self.index + 1, self.total as int),
            index: (self.index + 1) as usize,
            failures: if failed {
                (self.failures + 1) as usize
            } else {
                self.failures
            },
            ..self
        }
    }

    /// The run after `event`. An event that the stage does not await leaves
    /// the run as it is. A failure while forcing a file is local: the run
    /// turns to the next file. A failure to hide the dialog is kept and the
    /// run finishes. Every other failure ends the run.
    pub open spec fn next(self, event: Event) -> Run {
        if !awaited(self.stage, event) {
            self
        } else {
            match event {
                Event::Failed(cause) => match self.stage {
                    Stage::ResolvingItem | Stage::Generating => self.past_item(true),
                    Stage::Hiding => Run {
                        stage: Stage::Finished,
                        teardown: Some(failure_at(self.stage, cause)),
                        ..self
                    },
                    _ => Run {
                        stage: Stage::Failed,
                        fatal: Some(failure_at(self.stage, cause)),
                        ..self
                    },
                },
                Event::Listed(n) => Run { stage: Stage::InitialisingCom, total: n, ..self },
                Event::Polled(true) => Run { stage: Stage::Hiding, cancelled: true, ..self },
                Event::Polled(false) => Run { stage: Stage::SettingProgress, ..self },
                Event::Done => match self.stage {
                    Stage::ShowingDialog => Run {
                        stage: stage_before_item(self.index as int, self.total as int),
                        ..self
                    },
                    Stage::Generating => self.past_item(false),
                    _ => Run { stage: stage_after(self.stage), ..self },
                },
            }
        }
    }

    /// The local failure that the step on `event` has to log: one for each
    /// file whose shell item or thumbnail could not be had.
    pub open spec fn logged(self, event: Event) -> Option<PreloadError> {
        match event {
            Event::Failed(cause) if self.stage == Stage::ResolvingItem || self.stage
                == Stage::Generating => Some(failure_at(self.stage, cause)),
            _ => None,
        }
    }

    /// The result of the run.
    pub open spec fn outcome_of(self) -> Outcome {
        match self.stage {
            Stage::Finished => Outcome::Completed {
                processed: self.index,
                total: self.total,
                failures: self.failures,
                teardown: self.teardown,
            },
            Stage::Failed if self.fatal is Some => Outcome::Aborted(self.fatal->0),
            _ => Outcome::Unsettled,
        }
    }

    /// Starts a run.
    pub fn new() -> (run: Run)
        ensures
            run == Run::initial(),
            run.wf(),
    {
        Run {
            stage: Stage::ResolvingDirectory,
            total: 0,
            index: 0,
            failures: 0,
            cancelled: false,
            fatal: None,
            teardown: None,
        }
    }

    /// Whether the fields of this run fit together, as they do in every run
    /// that came from [`Run::new`] by [`Run::step`].
    pub fn well_formed(&self) -> (ok: bool)
        ensures
            ok == self.wf(),
    {
        let setup = before_first_file(self.stage);
        let item = on_a_file(self.stage);
        let closing = match self.stage {
            Stage::Hiding | Stage::Finished => true,
            _ => false,
        };
        let unlisted = match self.stage {
            Stage::ResolvingDirectory | Stage::ListingDirectory => true,
            _ => false,
        };
        let failed = match self.stage {
            Stage::Failed => true,
            _ => false,
        };
        let finished = match self.stage {
            Stage::Finished => true,
            _ => false,
        };
        let teardown_fits = match &self.teardown {
            Some(PreloadError::FailedToHideProgressDialog(_)) => finished,
            Some(_) => false,
            None => true,
        };
        let fatal_fits = match &self.fatal {
            Some(error) => failed && match error.severity() {
                Severity::Fatal => match error {
                    PreloadError::FailedToUpdateProgressDialog(_) => self.index < self.total,
                    _ => self.index == 0,
                },
                _ => false,
            },
            None => !failed,
        };
        self.index <= self.total && self.failures <= self.index && (!unlisted || self.total == 0)
            && (!setup || self.index == 0) && (!item || self.index < self.total) && (
        !self.cancelled || closing) && (!closing || self.cancelled || self.index == self.total)
            && teardown_fits && fatal_fits
    }

    /// What the caller is to do next. An action on a file names an index
    /// below the length of the work list.
    pub fn action(&self) -> (action: Action)
        requires
            self.wf(),
        ensures
            action == self.pending(),
            match action {
                Action::PollCancelled { index } => index < self.total,
                Action::SetProgress { current, total } => current < total,
                Action::SetLabel { index } => index < self.total,
                Action::ResolveItem { index } => index < self.total,
                Action::GenerateThumbnail { index, size, force } => index < self.total,
                _ => true,
            },
    {
        match self.stage {
            Stage::ResolvingDirectory => Action::ResolveDirectory,
            Stage::ListingDirectory => Action::ListDirectory,
            Stage::InitialisingCom => Action::InitialiseCom,
            Stage::CreatingBindContext => Action::CreateBindContext,
            Stage::CreatingThumbnailCache => Action::CreateThumbnailCache,
            Stage::CreatingDialog => Action::CreateDialog,
            Stage::SettingTitle => Action::SetTitle,
            Stage::SettingSummary => Action::SetSummary { total: self.total },
            Stage::ShowingDialog => Action::ShowDialog { estimate_time: true, minimizable: false },
            Stage::Polling => Action::PollCancelled { index: self.index },
            Stage::SettingProgress => Action::SetProgress {
                current: self.index,
                total: self.total,
            },
            Stage::SettingLabel => Action::SetLabel { index: self.index },
            Stage::ResolvingItem => Action::ResolveItem { index: self.index },
            Stage::Generating => Action::GenerateThumbnail {
                index: self.index,
                size: THUMBNAIL_SIZE,
                force: true,
            },
            Stage::Hiding => Action::HideDialog,
            Stage::Finished | Stage::Failed => Action::Stop,
        }
    }

    /// Whether the stage awaits `event`.
    pub fn awaits(&self, event: &Event) -> (yes: bool)
        ensures
            yes == awaited(self.stage, *event),
    {
        match self.stage {
            Stage::Finished | Stage::Failed => false,
            Stage::ListingDirectory => match event {
                Event::Listed(_) | Event::Failed(_) => true,
                _ => false,
            },
            Stage::Polling => match event {
                Event::Polled(_) => true,
                _ => false,
            },
            _ => match event {
                Event::Done | Event::Failed(_) => true,
                _ => false,
            },
        }
    }

    /// Takes the answer to the pending action and moves the run on.
    pub fn step(self, event: Event) -> (out: Step)
        requires
            self.wf(),
        ensures
            out.run == self.next(event),
            out.logged == self.logged(event),
            out.run.wf(),
    {
        if !self.awaits(&event) {
            return Step { run: self, logged: None };
        }
        let stage = self.stage;
        let mut run = self;
        match event {
            Event::Failed(cause) => {
                let error = failure(stage, cause);
                match stage {
                    Stage::ResolvingItem | Stage::Generating => {
                        run.index = run.index + 1;
                        run.failures = run.failures + 1;
                        run.stage = turn_to(run.index, run.total);
                        Step { run, logged: Some(error) }
                    },
                    Stage::Hiding => {
                        run.stage = Stage::Finished;
                        run.teardown = Some(error);
                        Step { run, logged: None }
                    },
                    _ => {
                        run.stage = Stage::Failed;
                        run.fatal = Some(error);
                        Step { run, logged: None }
                    },
                }
            },
            Event::Listed(n) => {
                run.stage = Stage::InitialisingCom;
                run.total = n;
                Step { run, logged: None }
            },
            Event::Polled(cancelled) => {
                if cancelled {
                    run.stage = Stage::Hiding;
                    run.cancelled = true;
                } else {
                    run.stage = Stage::SettingProgress;
                }
                Step { run, logged: None }
            },
            Event::Done => {
                match stage {
                    Stage::ShowingDialog => {
                        run.stage = turn_to(run.index, run.total);
                    },
                    Stage::Generating => {
                        run.index = run.index + 1;
                        run.stage = turn_to(run.index, run.total);
                    },
                    _ => {
                        run.stage = successor(stage);
                    },
                }
                Step { run, logged: None }
            },
        }
    }

    /// Takes a whole history of answers, one step for each.
    pub fn replay_all(self, events: Vec<Event>) -> (out: Replayed)
        requires
            self.wf(),
        ensures
            out.run == replay(self, events@),
            out.logged@ == logs(self, events@),
            out.run.wf(),
    {
        let ghost all = events@;
        let ghost start = self;
        let mut run = self;
        let mut logged: Vec<PreloadError> = Vec::new();
        for event in iter: events
            invariant
                iter.seq() == all,
                run.wf(),
                run == replay(start, all.take(iter.index() as int)),
                logged@ == logs(start, all.take(iter.index() as int)),
        {
            proof {
                let k = iter.index() as int;
                assert(all.take(k + 1).drop_last() == all.take(k));
                assert(all.take(k + 1).last() == event);
            }
            let step = run.step(event);
            run = step.run;
            match step.logged {
                Some(error) => {
                    logged.push(error);
                },
                None => {},
            }
        }
        proof {
            assert(all.take(all.len() as int) == all);
        }
        Replayed { run, logged }
    }

    /// The result of the run: unsettled until the run is over.
    pub fn outcome(self) -> (outcome: Outcome)
        ensures
            outcome == self.outcome_of(),
    {
        match self.stage {
            Stage::Finished => Outcome::Completed {
                processed: self.index,
                total: self.total,
                failures: self.failures,
                teardown: self.teardown,
            },
            Stage::Failed => match self.fatal {
                Some(error) => Outcome::Aborted(error),
                None => Outcome::Unsettled,
            },
            _ => Outcome::Unsettled,
        }
    }
}

/// The failure that a failed action means at `stage`.
pub fn failure(stage: Stage, cause: String) -> (error: PreloadError)
    ensures
        error == failure_at(stage, cause),
{
    match stage {
        Stage::ResolvingDirectory => PreloadError::InvalidDirectory(cause),
        Stage::ListingDirectory => PreloadError::FailedToReadDirectory(cause),
        Stage::InitialisingCom => PreloadError::FailedToInitialiseCOM(cause),
        Stage::CreatingBindContext => PreloadError::FailedToCreateBindContext(cause),
        Stage::CreatingThumbnailCache => PreloadError::FailedToCreateThumbnailCache(cause),
        Stage::CreatingDialog | Stage::SettingTitle | Stage::SettingSummary =>
            PreloadError::FailedToCreateProgressDialog(cause),
        Stage::ShowingDialog => PreloadError::FailedToShowProgressDialog(cause),
        Stage::SettingProgress | Stage::SettingLabel =>
            PreloadError::FailedToUpdateProgressDialog(cause),
        Stage::ResolvingItem => PreloadError::FailedToCreateShellItem(cause),
        Stage::Generating => PreloadError::FailedToGenerateThumbnail(cause),
        _ => PreloadError::FailedToHideProgressDialog(cause),
    }
}

/// Whether `stage` comes before the first file.
fn before_first_file(stage: Stage) -> (yes: bool)
    ensures
        yes == is_setup(stage),
{
    match stage {
        Stage::ResolvingDirectory
        | Stage::ListingDirectory
        | Stage::InitialisingCom
        | Stage::CreatingBindContext
        | Stage::CreatingThumbnailCache
        | Stage::CreatingDialog
        | Stage::SettingTitle
        | Stage::SettingSummary
        | Stage::ShowingDialog => true,
        _ => false,
    }
}

/// Whether `stage` works on a file.
fn on_a_file(stage: Stage) -> (yes: bool)
    ensures
        yes == is_item(stage),
{
    match stage {
        Stage::Polling
        | Stage::SettingProgress
        | Stage::SettingLabel
        | Stage::ResolvingItem
        | Stage::Generating => true,
        _ => false,
    }
}

/// The stage that follows a successful action at `stage`.
fn successor(stage: Stage) -> (after: Stage)
    ensures
        after == stage_after(stage),
{
    match stage {
        Stage::ResolvingDirectory => Stage::ListingDirectory,
        Stage::ListingDirectory => Stage::InitialisingCom,
        Stage::InitialisingCom => Stage::CreatingBindContext,
        Stage::CreatingBindContext => Stage::CreatingThumbnailCache,
        Stage::CreatingThumbnailCache => Stage::CreatingDialog,
        Stage::CreatingDialog => Stage::SettingTitle,
        Stage::SettingTitle => Stage::SettingSummary,
        Stage::SettingSummary => Stage::ShowingDialog,
        Stage::Polling => Stage::SettingProgress,
        Stage::SettingProgress => Stage::SettingLabel,
        Stage::SettingLabel => Stage::ResolvingItem,
        Stage::ResolvingItem => Stage::Generating,
        Stage::Hiding => Stage::Finished,
        other => other,
    }
}

/// The stage in which a run turns to the file at `index`.
fn turn_to(index: usize, total: usize) -> (stage: Stage)
    ensures
        stage == stage_before_item(index as int, total as int),
{
    if index < total {
        Stage::Polling
    } else {
        Stage::Hiding
    }
}

} // verus!
