//! What holds of every run, whatever the operating system answers.
//!
//! A history is the sequence of answers that a run has taken. The functions
//! here count what a history made the caller do, and the laws tie those
//! counts to the state that the run is left in.

use crate::error::Severity;
use crate::run::{
    awaited, failure_at, is_setup, logs, replay, Action, Event, Outcome, Run, Stage,
};
use vstd::prelude::*;

verus! {

/// What a history made the caller do.
pub struct Tally {
    /// How often the dialog was shown.
    pub shows: nat,
    /// How often the dialog was polled for a cancellation.
    pub polls: nat,
    /// How often a file was handed to the forcer.
    pub forcer_runs: nat,
    /// How often the dialog's progress was set.
    pub progress_updates: nat,
    /// How many thumbnails the cache made.
    pub thumbnails: nat,
    /// How many local failures were logged.
    pub local_errors: nat,
    /// How often the dialog was asked to hide.
    pub teardowns: nat,
}

/// Whether `run`, taking `event`, takes the answer to the action of `stage`.
pub open spec fn answers(run: Run, event: Event, stage: Stage) -> bool {
    run.stage == stage && awaited(run.stage, event)
}

/// One if `b`, else zero.
pub open spec fn one_if(b: bool) -> nat {
    if b {
        1
    } else {
        0
    }
}

/// What the caller did on the way from `start` through `events`. Forcing a
/// file begins with resolving its shell item, and updating the progress with
/// setting the dialog's position; either counts whether or not it succeeded.
pub open spec fn tally(start: Run, events: Seq<Event>) -> Tally
    decreases events.len(),
{
    if events.len() == 0 {
        Tally {
            shows: 0,
            polls: 0,
            forcer_runs: 0,
            progress_updates: 0,
            thumbnails: 0,
            local_errors: 0,
            teardowns: 0,
        }
    } else {
        let before = tally(start, events.drop_last());
        let run = replay(start, events.drop_last());
        let event = events.last();
        Tally {
            shows: before.shows + one_if(
                answers(run, event, Stage::ShowingDialog) && event is Done,
            ),
            polls: before.polls + one_if(answers(run, event, Stage::Polling)),
            forcer_runs: before.forcer_runs + one_if(answers(run, event, Stage::ResolvingItem)),
            progress_updates: before.progress_updates + one_if(
                answers(run, event, Stage::SettingProgress),
            ),
            thumbnails: before.thumbnails + one_if(
                answers(run, event, Stage::Generating) && event is Done,
            ),
            local_errors: before.local_errors + one_if(run.logged(event) is Some),
            teardowns: before.teardowns + one_if(answers(run, event, Stage::Hiding)),
        }
    }
}

/// Whether `run` has got as far as its files: its dialog is shown.
pub open spec fn past_setup(run: Run) -> bool {
    !is_setup(run.stage) && !(run.fatal is Some && run.fatal->0.is_setup())
}

/// The number of times that `run` has polled its dialog.
pub open spec fn polled(run: Run) -> nat {
    updated(run) + one_if(run.stage == Stage::SettingProgress) + one_if(run.cancelled)
}

/// The number of files that `run` has handed to the forcer.
pub open spec fn forced(run: Run) -> nat {
    run.index as nat + one_if(run.stage == Stage::Generating)
}

/// The number of times that `run` has set the dialog's progress.
pub open spec fn updated(run: Run) -> nat {
    run.index as nat + one_if(
        run.stage == Stage::SettingLabel || run.stage == Stage::ResolvingItem || run.stage
            == Stage::Generating || (run.fatal is Some && !run.fatal->0.is_setup()),
    )
}

/// The number of files of `run` whose thumbnail was made.
pub open spec fn succeeded(run: Run) -> int {
    run.index - run.failures
}

/// The number of times that `run` has asked the dialog to hide.
pub open spec fn torn_down(run: Run) -> nat {
    one_if(run.stage == Stage::Finished)
}

/// A step keeps the invariant, and moves each count by what the step did.
pub proof fn lemma_step(run: Run, event: Event)
    requires
        run.wf(),
    ensures
        run.next(event).wf(),
        run.next(event).total == run.total || run.stage == Stage::ListingDirectory,
        one_if(past_setup(run.next(event))) == one_if(past_setup(run)) + one_if(
            answers(run, event, Stage::ShowingDialog) && event is Done,
        ),
        polled(run.next(event)) == polled(run) + one_if(answers(run, event, Stage::Polling)),
        forced(run.next(event)) == forced(run) + one_if(answers(run, event, Stage::ResolvingItem)),
        updated(run.next(event)) == updated(run) + one_if(
            answers(run, event, Stage::SettingProgress),
        ),
        succeeded(run.next(event)) == succeeded(run) + one_if(
            answers(run, event, Stage::Generating) && event is Done,
        ),
        run.next(event).failures == run.failures + one_if(run.logged(event) is Some),
        torn_down(run.next(event)) == torn_down(run) + one_if(answers(run, event, Stage::Hiding)),
{
}

/// Every history keeps the invariant, and the counts of what the caller did
/// are the counts that the state holds: the times the dialog was shown and
/// polled, the files handed to the forcer, the progress updates, the
/// thumbnails made, the local failures logged, and the teardowns.
pub proof fn law_tally_matches_state(start: Run, events: Seq<Event>)
    requires
        start.wf(),
    ensures
        replay(start, events).wf(),
        one_if(past_setup(replay(start, events))) == one_if(past_setup(start)) + tally(
            start,
            events,
        ).shows,
        polled(replay(start, events)) == polled(start) + tally(start, events).polls,
        forced(replay(start, events)) == forced(start) + tally(start, events).forcer_runs,
        updated(replay(start, events)) == updated(start) + tally(start, events).progress_updates,
        succeeded(replay(start, events)) == succeeded(start) + tally(start, events).thumbnails,
        replay(start, events).failures == start.failures + tally(start, events).local_errors,
        torn_down(replay(start, events)) == torn_down(start) + tally(start, events).teardowns,
        logs(start, events).len() == tally(start, events).local_errors,
    decreases events.len(),
{
    if events.len() > 0 {
        law_tally_matches_state(start, events.drop_last());
        lemma_step(replay(start, events.drop_last()), events.last());
    }
}

/// A history taken in two parts gives the run, the log and the counts that
/// it gives taken at once.
pub proof fn lemma_history_splits(start: Run, first: Seq<Event>, then: Seq<Event>)
    ensures
        replay(start, first + then) == replay(replay(start, first), then),
        logs(start, first + then) == logs(start, first) + logs(replay(start, first), then),
        tally(start, first + then).forcer_runs == tally(start, first).forcer_runs + tally(
            replay(start, first),
            then,
        ).forcer_runs,
        tally(start, first + then).progress_updates == tally(start, first).progress_updates
            + tally(replay(start, first), then).progress_updates,
        tally(start, first + then).thumbnails == tally(start, first).thumbnails + tally(
            replay(start, first),
            then,
        ).thumbnails,
        tally(start, first + then).local_errors == tally(start, first).local_errors + tally(
            replay(start, first),
            then,
        ).local_errors,
        tally(start, first + then).teardowns == tally(start, first).teardowns + tally(
            replay(start, first),
            then,
        ).teardowns,
    decreases then.len(),
{
    if then.len() == 0 {
        assert(first + then =~= first);
        assert(logs(start, first) + logs(replay(start, first), then) =~= logs(start, first));
    } else {
        lemma_history_splits(start, first, then.drop_last());
        assert((first + then).drop_last() =~= first + then.drop_last());
        assert((first + then).last() == then.last());
        let mid = replay(start, first);
        let before = logs(mid, then.drop_last());
        match replay(mid, then.drop_last()).logged(then.last()) {
            Some(error) => {
                assert(logs(start, first) + before.push(error) =~= (logs(start, first)
                    + before).push(error));
            },
            None => {},
        }
    }
}

/// The dialog is shown once before anything is done for a file: a run that
/// has polled, set a progress, forced a file or hidden its dialog has shown
/// the dialog exactly once. The dialog is polled before each file: every
/// progress update follows a poll of its own that saw no cancellation, and
/// every file handed to the forcer follows a progress update of its own.
pub proof fn law_order_of_a_run(events: Seq<Event>)
    ensures
        ({
            let t = tally(Run::initial(), events);
            let last = replay(Run::initial(), events);
            &&& t.shows <= 1
            &&& t.polls > 0 || t.progress_updates > 0 || t.forcer_runs > 0 || t.teardowns > 0
                ==> t.shows == 1
            &&& t.polls == t.progress_updates + one_if(last.stage == Stage::SettingProgress)
                + one_if(last.cancelled)
            &&& t.forcer_runs <= t.progress_updates <= t.forcer_runs + 1
            &&& t.thumbnails + t.local_errors <= t.forcer_runs <= t.thumbnails + t.local_errors + 1
            &&& t.forcer_runs <= last.total
            &&& t.teardowns <= 1
        }),
{
    law_tally_matches_state(Run::initial(), events);
}

/// Once a run hides its dialog or is over, nothing moves its counts, lifts
/// a cancellation or brings it back to a file; and a run that does not end
/// in a failure stays so.
pub proof fn lemma_closing_stays(start: Run, events: Seq<Event>)
    requires
        start.wf(),
        start.stage == Stage::Hiding || start.stage == Stage::Finished,
    ensures
        replay(start, events).stage == Stage::Hiding || replay(start, events).stage
            == Stage::Finished,
        replay(start, events).index == start.index,
        replay(start, events).total == start.total,
        replay(start, events).failures == start.failures,
        replay(start, events).cancelled == start.cancelled,
        replay(start, events).fatal is None,
    decreases events.len(),
{
    if events.len() > 0 {
        lemma_closing_stays(start, events.drop_last());
    }
}

/// The length of the work list is fixed by the listing: a run that is past
/// the listing keeps its total through every history.
pub proof fn law_total_is_fixed(start: Run, events: Seq<Event>)
    requires
        start.wf(),
        start.stage != Stage::ResolvingDirectory,
        start.stage != Stage::ListingDirectory,
    ensures
        replay(start, events).total == start.total,
        replay(start, events).stage != Stage::ResolvingDirectory,
        replay(start, events).stage != Stage::ListingDirectory,
    decreases events.len(),
{
    if events.len() > 0 {
        law_total_is_fixed(start, events.drop_last());
        law_tally_matches_state(start, events.drop_last());
    }
}

/// A run over an empty work list never hands a file to the forcer, never
/// sets the progress and logs nothing. Showing its dialog leads straight to
/// hiding it, and once it has finished the dialog was asked to hide exactly
/// once and the result is a completed run of zero files.
pub proof fn law_empty_directory(events: Seq<Event>)
    requires
        replay(Run::initial(), events).total == 0,
    ensures
        tally(Run::initial(), events).forcer_runs == 0,
        tally(Run::initial(), events).progress_updates == 0,
        tally(Run::initial(), events).thumbnails == 0,
        tally(Run::initial(), events).local_errors == 0,
        replay(Run::initial(), events).stage == Stage::ShowingDialog ==> replay(
            Run::initial(),
            events,
        ).next(Event::Done).pending() == Action::HideDialog,
        replay(Run::initial(), events).stage == Stage::Finished ==> {
            &&& tally(Run::initial(), events).teardowns == 1
            &&& replay(Run::initial(), events).outcome_of() == (Outcome::Completed {
                processed: 0,
                total: 0,
                failures: 0,
                teardown: replay(Run::initial(), events).teardown,
            })
        },
{
    law_tally_matches_state(Run::initial(), events);
}

/// A file whose shell item or thumbnail cannot be had costs the run nothing
/// but that file: the failure is logged with its cause, the file is counted
/// as failed, no fatal failure arises, and the run turns to the next file,
/// or hides the dialog after the last one.
pub proof fn law_local_failure_moves_on(run: Run, cause: String)
    requires
        run.wf(),
        run.stage == Stage::ResolvingItem || run.stage == Stage::Generating,
    ensures
        run.logged(Event::Failed(cause)) == Some(failure_at(run.stage, cause)),
        failure_at(run.stage, cause).severity_of() == Severity::Local,
        failure_at(run.stage, cause).cause() == cause@,
        run.next(Event::Failed(cause)).index == run.index + 1,
        run.next(Event::Failed(cause)).failures == run.failures + 1,
        run.next(Event::Failed(cause)).fatal is None,
        run.next(Event::Failed(cause)).pending() == (if run.index + 1 < run.total {
            Action::PollCancelled { index: (run.index + 1) as usize }
        } else {
            Action::HideDialog
        }),
{
}

/// In a run that went through its whole work list, every file was handed to
/// the forcer once, and the thumbnails made are the files less the local
/// failures logged.
pub proof fn law_exhausted_run_counts(events: Seq<Event>)
    requires
        replay(Run::initial(), events).stage == Stage::Finished,
        !replay(Run::initial(), events).cancelled,
    ensures
        tally(Run::initial(), events).forcer_runs == replay(Run::initial(), events).total,
        tally(Run::initial(), events).progress_updates == replay(Run::initial(), events).total,
        tally(Run::initial(), events).thumbnails == replay(Run::initial(), events).total - tally(
            Run::initial(),
            events,
        ).local_errors,
        tally(Run::initial(), events).teardowns == 1,
{
    law_tally_matches_state(Run::initial(), events);
}

/// A cancellation seen before file `k` ends the run after exactly `k`
/// files. Up to the poll the forcer ran `k` times. From the poll on, whatever
/// is answered, no file is handed to the forcer and no progress is set, the
/// run never fails, the next action is to hide the dialog, and once the run
/// has finished the dialog was asked to hide exactly once and the result is
/// a completed run of `k` files.
pub proof fn law_cancellation(events: Seq<Event>, rest: Seq<Event>)
    requires
        replay(Run::initial(), events).stage == Stage::Polling,
    ensures
        ({
            let polled = replay(Run::initial(), events);
            let k = polled.index;
            let cancelled = polled.next(Event::Polled(true));
            let last = replay(cancelled, rest);
            &&& tally(Run::initial(), events).forcer_runs == k
            &&& tally(Run::initial(), events).teardowns == 0
            &&& last == replay(Run::initial(), events.push(Event::Polled(true)) + rest)
            &&& tally(Run::initial(), events.push(Event::Polled(true)) + rest).forcer_runs == k
            &&& tally(Run::initial(), events.push(Event::Polled(true)) + rest).teardowns == one_if(
                last.stage == Stage::Finished,
            )
            &&& cancelled.pending() == Action::HideDialog
            &&& tally(cancelled, rest).forcer_runs == 0
            &&& tally(cancelled, rest).progress_updates == 0
            &&& tally(cancelled, rest).teardowns == one_if(last.stage == Stage::Finished)
            &&& last.fatal is None
            &&& last.cancelled
            &&& last.index == k
            &&& last.stage == Stage::Finished ==> last.outcome_of() == (Outcome::Completed {
                processed: k,
                total: polled.total,
                failures: polled.failures,
                teardown: last.teardown,
            })
        }),
{
    let polled = replay(Run::initial(), events);
    law_tally_matches_state(Run::initial(), events);
    let cancelled = polled.next(Event::Polled(true));
    lemma_step(polled, Event::Polled(true));
    law_tally_matches_state(cancelled, rest);
    lemma_closing_stays(cancelled, rest);
    let upto = events.push(Event::Polled(true));
    assert(upto.drop_last() == events);
    assert(upto.last() == Event::Polled(true));
    lemma_history_splits(Run::initial(), upto, rest);
}

/// A run is decided by the answers it takes: two runs that start alike and
/// take the same answers end alike, with the same result, logged the same
/// local failures in the same order, and made their callers do the same.
pub proof fn law_same_answers_same_run(
    first: Run,
    second: Run,
    answers_first: Seq<Event>,
    answers_second: Seq<Event>,
)
    requires
        first == second,
        answers_first.len() == answers_second.len(),
        forall|i: int| 0 <= i < answers_first.len() ==> answers_first[i] == answers_second[i],
    ensures
        replay(first, answers_first) == replay(second, answers_second),
        logs(first, answers_first) == logs(second, answers_second),
        tally(first, answers_first) == tally(second, answers_second),
{
    assert(answers_first =~= answers_second);
}

/// A run that a failure ended before the first file made its caller hand no
/// file to the forcer, set no progress, log nothing and hide no dialog.
pub proof fn law_setup_failure(events: Seq<Event>)
    requires
        replay(Run::initial(), events).fatal is Some,
        replay(Run::initial(), events).fatal->0.is_setup(),
    ensures
        tally(Run::initial(), events).forcer_runs == 0,
        tally(Run::initial(), events).progress_updates == 0,
        tally(Run::initial(), events).thumbnails == 0,
        tally(Run::initial(), events).local_errors == 0,
        tally(Run::initial(), events).teardowns == 0,
{
    law_tally_matches_state(Run::initial(), events);
}

/// A failed action before the first file ends the run at once, with the
/// failure of its stage, and a run that is over takes no further answer.
pub proof fn law_setup_failure_is_fatal(run: Run, cause: String, later: Event)
    requires
        run.wf(),
        is_setup(run.stage),
    ensures
        run.next(Event::Failed(cause)).stage == Stage::Failed,
        run.next(Event::Failed(cause)).fatal == Some(failure_at(run.stage, cause)),
        failure_at(run.stage, cause).is_setup(),
        run.next(Event::Failed(cause)).pending() == Action::Stop,
        run.next(Event::Failed(cause)).next(later) == run.next(Event::Failed(cause)),
{
}

} // verus!
