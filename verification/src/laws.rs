//! What holds of every transition of the engine.

use crate::backoff::{increased, increased_n, lemma_backoff_cap, MAX_MULTIPLIER};
use crate::cadence::{
    check_due, checks_in, cycles_after, cycles_after_n, lemma_one_check_per_period,
    lemma_one_check_per_round,
};
use crate::payload::PayloadView;
use crate::session::SessionView;
use crate::model::{lemma_step_keeps_valid, EngineView};
use crate::protocol::{ActionView, EngineError, EventView, Phase};
use vstd::arithmetic::power2::pow2;
use vstd::math::min;
use vstd::prelude::*;

verus! {

/// Whether `event`, arriving in `state`, ends a round with the editor or the
/// chat client not ready, or ends an idle pass of the working loop.
pub open spec fn not_ready(state: EngineView, event: EventView) -> bool {
    match state.phase {
        Phase::Polling => event == EventView::Woke && !check_due(
            state.cadence.cycles,
            state.cadence.period,
        ) && !state.app_running && !state.client_connected,
        Phase::CheckingApp => event == EventView::AppRunning(false) && !state.client_connected,
        Phase::Clearing => event == EventView::SinkDone || event == EventView::SinkFailed,
        Phase::Connecting => event == EventView::SinkFailed,
        Phase::PublishingIdle => event == EventView::SinkDone,
        _ => false,
    }
}

/// Whether `event`, arriving in `state`, confirms that the editor runs, that
/// the chat client is connected, or that a working status went out.
pub open spec fn ready(state: EngineView, event: EventView) -> bool {
    match state.phase {
        Phase::Polling => event == EventView::Woke && !check_due(
            state.cadence.cycles,
            state.cadence.period,
        ) && state.app_running,
        Phase::CheckingApp => event == EventView::AppRunning(true),
        Phase::Connecting => event == EventView::SinkDone,
        Phase::PublishingWork => event == EventView::SinkDone,
        _ => false,
    }
}

/// The multiplier changes in two ways only: it doubles up to the cap, or it
/// drops to one.
pub proof fn lemma_backoff_changes(state: EngineView, event: EventView, now: int)
    ensures
        ({
            let next = state.step(event, now).0;
            next.backoff == state.backoff || next.backoff == increased(state.backoff)
                || next.backoff == 1
        }),
{
}

/// Whatever was not ready, the multiplier doubles up to the cap and the
/// engine pauses for the poll interval scaled by the new multiplier.
pub proof fn lemma_not_ready_backs_off(state: EngineView, event: EventView, now: int)
    requires
        not_ready(state, event),
    ensures
        ({
            let (next, action) = state.step(event, now);
            &&& next.backoff == increased(state.backoff)
            &&& action == ActionView::Sleep(state.settings.poll_interval * next.backoff)
        }),
{
}

/// Whatever was confirmed ready, the multiplier is one afterwards.
pub proof fn lemma_ready_resets(state: EngineView, event: EventView, now: int)
    requires
        ready(state, event),
    ensures
        state.step(event, now).0.backoff == 1,
{
}

/// Whatever was neither, the multiplier stays as it is.
pub proof fn lemma_backoff_is_kept_otherwise(state: EngineView, event: EventView, now: int)
    requires
        state.valid(),
        !not_ready(state, event),
        !ready(state, event),
    ensures
        state.step(event, now).0.backoff == state.backoff,
{
}

/// The state after one round of availability checks that starts in `state`
/// and in which the editor, if asked after, is reported as not running.
pub open spec fn round_with_editor_down(state: EngineView, now: int) -> EngineView {
    let (asked, action) = state.step(EventView::Woke, now);
    if action == ActionView::CheckApp {
        asked.step(EventView::AppRunning(false), now).0
    } else {
        asked
    }
}

/// The state after `n` such rounds in a row.
pub open spec fn rounds_with_editor_down(state: EngineView, n: nat, now: int) -> EngineView
    decreases n,
{
    if n == 0 {
        state
    } else {
        round_with_editor_down(rounds_with_editor_down(state, (n - 1) as nat, now), now)
    }
}

/// While the editor stays down and nothing is connected, every round doubles
/// the multiplier up to the cap and leaves the engine waiting for the next
/// round.
pub proof fn lemma_backoff_while_editor_down(state: EngineView, n: nat, now: int)
    requires
        state.valid(),
        state.phase == Phase::Polling,
        !state.app_running,
        !state.client_connected,
    ensures
        ({
            let end = rounds_with_editor_down(state, n, now);
            &&& end.backoff == increased_n(state.backoff, n)
            &&& state.backoff == 1 ==> end.backoff == min(pow2(n) as int, MAX_MULTIPLIER as int)
            &&& end.phase == Phase::Polling
            &&& !end.app_running
            &&& !end.client_connected
            &&& end.valid()
        }),
    decreases n,
{
    if n > 0 {
        lemma_backoff_while_editor_down(state, (n - 1) as nat, now);
    }
    if state.backoff == 1 {
        lemma_backoff_cap(n);
    }
}

/// Once the editor is found running, the multiplier is one again and the
/// chat client is contacted.
pub proof fn lemma_editor_up_resets(state: EngineView, now: int)
    requires
        state.phase == Phase::CheckingApp,
    ensures
        ({
            let (next, action) = state.step(EventView::AppRunning(true), now);
            &&& next.backoff == 1
            &&& next.app_running
            &&& action == ActionView::Connect
        }),
{
}

/// Whether `event`, arriving in `state`, runs one cycle of the liveness
/// cadence: a pause has ended, or a session has just ended.
pub open spec fn runs_cycle(state: EngineView, event: EventView) -> bool {
    match state.phase {
        Phase::Polling => event == EventView::Woke,
        Phase::Resting => event == EventView::Woke,
        Phase::RecheckingApp => event == EventView::AppRunning(false),
        _ => false,
    }
}

/// A liveness check is asked for exactly in a cycle that finds the counter
/// at the period, and the counter is zero right after; every other cycle
/// adds one to it; nothing else touches it.
pub proof fn lemma_liveness_cadence(state: EngineView, event: EventView, now: int)
    ensures
        ({
            let (next, action) = state.step(event, now);
            let cycles = state.cadence.cycles;
            let period = state.cadence.period;
            &&& next.cadence.period == period
            &&& runs_cycle(state, event) ==> next.cadence.cycles == cycles_after(cycles, period)
            &&& !runs_cycle(state, event) ==> next.cadence.cycles == cycles
            &&& action == ActionView::CheckApp <==> runs_cycle(state, event) && check_due(
                cycles,
                period,
            )
            &&& action == ActionView::CheckApp ==> next.cadence.cycles == 0
        }),
{
}

/// The project identity that `event` makes known when it arrives in
/// `state`, if any. A hidden project is known to be empty as soon as the
/// focus has been read.
pub open spec fn observed_project(state: EngineView, event: EventView) -> Option<Seq<char>> {
    match (state.phase, event) {
        (Phase::ReadingProject, EventView::Project(project)) => Some(project),
        (Phase::ReadingFocus, EventView::Frontmost(_)) => if state.settings.hide_project {
            Some(Seq::empty())
        } else {
            None
        },
        _ => None,
    }
}

/// Whether `event`, arriving in `state`, begins a session.
pub open spec fn enters_session(state: EngineView, event: EventView) -> bool {
    state.phase == Phase::Connecting && event == EventView::SinkDone
}

/// As long as no session begins and no other project identity is observed,
/// the start of the session and the identity on record stay as they are,
/// whatever else happens.
pub proof fn lemma_session_start_is_kept(state: EngineView, event: EventView, now: int)
    requires
        !enters_session(state, event),
        observed_project(state, event) matches Some(project) ==> project
            == state.session.current_project,
    ensures
        state.step(event, now).0.session.session_start == state.session.session_start,
        state.step(event, now).0.session.current_project == state.session.current_project,
{
}

/// Observing another project identity restarts the session at the time of
/// the observation and puts the new identity on record.
pub proof fn lemma_project_change_restarts_session(
    state: EngineView,
    event: EventView,
    now: int,
)
    requires
        observed_project(state, event) matches Some(project) && project
            != state.session.current_project,
    ensures
        state.step(event, now).0.session.session_start == now,
        state.step(event, now).0.session.current_project == observed_project(state, event)->0,
{
}

/// Entering a session starts it at the time of entry, with no project on
/// record and the focus counted from then.
pub proof fn lemma_session_entry(state: EngineView, event: EventView, now: int)
    requires
        enters_session(state, event),
    ensures
        state.step(event, now).0.session == SessionView::begin(now),
        state.step(event, now).0.client_connected,
        state.step(event, now).0.backoff == 1,
        state.step(event, now).1 == ActionView::CheckFrontmost,
{
}

/// The moment of the last focus changes only when the editor is found
/// frontmost, and is then the time at which it was found so.
pub proof fn lemma_focus_is_recorded(state: EngineView, event: EventView, now: int)
    requires
        !enters_session(state, event),
    ensures
        ({
            let next = state.step(event, now).0;
            if state.phase == Phase::ReadingFocus && event == EventView::Frontmost(true) {
                next.session.last_focused_at == now
            } else {
                next.session.last_focused_at == state.session.last_focused_at
            }
        }),
{
}

/// Once the project is known, the idle status goes out exactly when there is
/// no project or the editor has been out of focus for longer than the
/// threshold: being out of focus for exactly the threshold is not idle.
pub proof fn lemma_idle_decision(state: EngineView, project: Seq<char>, now: int)
    requires
        state.phase == Phase::ReadingProject,
    ensures
        ({
            let (next, action) = state.step(EventView::Project(project), now);
            let away = now - state.session.last_focused_at;
            let idle = project.len() == 0 || away > state.settings.idle_threshold;
            &&& next.phase == Phase::PublishingIdle <==> idle
            &&& idle ==> action == ActionView::SetActivity(
                PayloadView::idle(state.languages, next.session.session_start),
            )
            &&& !idle && !state.settings.hide_file ==> action == ActionView::ReadFile && next.phase
                == Phase::ReadingFile
            &&& !idle && state.settings.hide_file ==> next.phase == Phase::PublishingWork
        }),
{
}

/// A status that goes out is either the idle status or the working status
/// for the project on record, and carries the start of the session. It goes
/// out only while the editor is known to run and the chat client is
/// connected.
pub proof fn lemma_published_status(state: EngineView, event: EventView, now: int)
    requires
        state.valid(),
    ensures
        ({
            let (next, action) = state.step(event, now);
            action matches ActionView::SetActivity(payload) ==> {
                &&& next.app_running && next.client_connected
                &&& payload.started_at == next.session.session_start
                &&& next.phase == Phase::PublishingIdle || next.phase == Phase::PublishingWork
                &&& next.phase == Phase::PublishingIdle ==> payload == PayloadView::idle(
                    state.languages,
                    next.session.session_start,
                )
                &&& next.phase == Phase::PublishingWork ==> exists|file: Seq<char>|
                    payload == PayloadView::working(
                        state.settings,
                        state.languages,
                        next.session.current_project,
                        file,
                        next.session.session_start,
                    )
            }
        }),
{
    let (next, action) = state.step(event, now);
    if let ActionView::SetActivity(payload) = action {
        if next.phase == Phase::PublishingWork {
            let file = match event {
                EventView::File(file) => file,
                _ => Seq::empty(),
            };
            assert(payload == PayloadView::working(
                state.settings,
                state.languages,
                next.session.current_project,
                file,
                next.session.session_start,
            ));
        }
    }
}

/// With the project hidden, no status that goes out names a project; with
/// the file hidden, none names a file or a language.
pub proof fn lemma_nothing_hidden_is_published(state: EngineView, event: EventView, now: int)
    ensures
        ({
            let action = state.step(event, now).1;
            action matches ActionView::SetActivity(payload) ==> {
                &&& state.settings.hide_project ==> payload.state == "Idle"@ || payload.state
                    == "in a Project"@
                &&& state.settings.hide_file ==> payload.details == "Idle"@ || payload.details
                    == "Working on a file"@
                &&& state.settings.hide_file ==> payload.assets == state.languages.unknown
            }
        }),
{
}

/// With the project hidden, the project is never asked for, and reading the
/// focus is followed by the idle status at once.
pub proof fn lemma_hidden_project_is_idle(state: EngineView, frontmost: bool, now: int)
    requires
        state.phase == Phase::ReadingFocus,
        state.settings.hide_project,
    ensures
        ({
            let (next, action) = state.step(EventView::Frontmost(frontmost), now);
            &&& next.phase == Phase::PublishingIdle
            &&& action == ActionView::SetActivity(
                PayloadView::idle(state.languages, next.session.session_start),
            )
        }),
{
}

/// The project and the file are asked for only where they are not hidden.
pub proof fn lemma_hidden_names_are_not_read(state: EngineView, event: EventView, now: int)
    ensures
        state.step(event, now).1 == ActionView::ReadProject ==> !state.settings.hide_project,
        state.step(event, now).1 == ActionView::ReadFile ==> !state.settings.hide_file,
{
}

/// A failed query about the editor is fatal wherever an answer was awaited;
/// a refused status is fatal; a failed connection or a failed clearing is
/// not: the engine backs off and polls again.
pub proof fn lemma_error_policy(state: EngineView, now: int)
    ensures
        state.phase == Phase::CheckingApp || state.phase == Phase::RecheckingApp || state.phase
            == Phase::ReadingFocus || state.phase == Phase::ReadingProject || state.phase
            == Phase::ReadingFile ==> state.step(EventView::ProbeFailed, now) == state.fail(
            EngineError::Probe,
        ),
        state.phase == Phase::PublishingIdle || state.phase == Phase::PublishingWork
            ==> state.step(EventView::SinkFailed, now) == state.fail(EngineError::Sink),
        state.phase == Phase::Connecting || state.phase == Phase::Clearing ==> {
            let (next, action) = state.step(EventView::SinkFailed, now);
            &&& next.phase == Phase::Polling
            &&& !next.client_connected
            &&& action is Sleep
        },
{
}

/// A failed engine stays as it is and keeps reporting why it failed.
pub proof fn lemma_failure_is_final(
    state: EngineView,
    error: EngineError,
    event: EventView,
    now: int,
)
    requires
        state.phase == Phase::Failed(error),
    ensures
        state.step(event, now) == (state, ActionView::Fail(error)),
{
}

/// The state reached from `state` once the events of `run` have arrived one
/// after another, each at the time paired with it.
pub open spec fn after_run(state: EngineView, run: Seq<(EventView, int)>) -> EngineView
    decreases run.len(),
{
    if run.len() == 0 {
        state
    } else {
        after_run(state, run.drop_last()).step(run.last().0, run.last().1).0
    }
}

/// How many events of `run` find the editor or the chat client not ready,
/// or end an idle pass.
pub open spec fn not_ready_in_run(state: EngineView, run: Seq<(EventView, int)>) -> nat
    decreases run.len(),
{
    if run.len() == 0 {
        0
    } else {
        let before = after_run(state, run.drop_last());
        let last: nat = if not_ready(before, run.last().0) {
            1
        } else {
            0
        };
        not_ready_in_run(state, run.drop_last()) + last
    }
}

/// Whether no event of `run` confirms anything ready.
pub open spec fn nothing_ready_in_run(state: EngineView, run: Seq<(EventView, int)>) -> bool
    decreases run.len(),
{
    if run.len() == 0 {
        true
    } else {
        let before = after_run(state, run.drop_last());
        nothing_ready_in_run(state, run.drop_last()) && !ready(before, run.last().0)
    }
}

/// Over any run in which nothing is confirmed ready, the multiplier has
/// doubled, up to the cap, once for each time something was not ready. From
/// the resting value it stands at `min(2^n, 8)` after `n` such times.
pub proof fn lemma_backoff_over_run(state: EngineView, run: Seq<(EventView, int)>)
    requires
        state.valid(),
        nothing_ready_in_run(state, run),
    ensures
        ({
            let end = after_run(state, run);
            let n = not_ready_in_run(state, run);
            &&& end.backoff == increased_n(state.backoff, n)
            &&& state.backoff == 1 ==> end.backoff == min(pow2(n) as int, MAX_MULTIPLIER as int)
        }),
    decreases run.len(),
{
    if run.len() > 0 {
        let earlier = run.drop_last();
        lemma_backoff_over_run(state, earlier);
        lemma_run_keeps_valid(state, earlier);
        let before = after_run(state, earlier);
        if not_ready(before, run.last().0) {
            lemma_not_ready_backs_off(before, run.last().0, run.last().1);
        } else {
            lemma_backoff_is_kept_otherwise(before, run.last().0, run.last().1);
        }
    }
    if state.backoff == 1 {
        lemma_backoff_cap(not_ready_in_run(state, run));
    }
}

/// How many events of `run` run a cycle of the liveness cadence.
pub open spec fn cycles_in_run(state: EngineView, run: Seq<(EventView, int)>) -> nat
    decreases run.len(),
{
    if run.len() == 0 {
        0
    } else {
        let before = after_run(state, run.drop_last());
        let last: nat = if runs_cycle(before, run.last().0) {
            1
        } else {
            0
        };
        cycles_in_run(state, run.drop_last()) + last
    }
}

/// How many events of `run` are answered by asking for a liveness check.
pub open spec fn checks_in_run(state: EngineView, run: Seq<(EventView, int)>) -> nat
    decreases run.len(),
{
    if run.len() == 0 {
        0
    } else {
        let before = after_run(state, run.drop_last());
        let last: nat = if before.step(run.last().0, run.last().1).1 == ActionView::CheckApp {
            1
        } else {
            0
        };
        checks_in_run(state, run.drop_last()) + last
    }
}

/// Over any run the engine asks for exactly the liveness checks that the
/// cadence prescribes for the cycles run, and leaves the counter where the
/// cadence puts it.
pub proof fn lemma_run_follows_cadence(state: EngineView, run: Seq<(EventView, int)>)
    ensures
        ({
            let cycles = state.cadence.cycles;
            let period = state.cadence.period;
            let end = after_run(state, run);
            &&& end.cadence.period == period
            &&& end.cadence.cycles == cycles_after_n(cycles, period, cycles_in_run(state, run))
            &&& checks_in_run(state, run) == checks_in(cycles, period, cycles_in_run(state, run))
        }),
    decreases run.len(),
{
    if run.len() > 0 {
        lemma_run_follows_cadence(state, run.drop_last());
        let before = after_run(state, run.drop_last());
        lemma_liveness_cadence(before, run.last().0, run.last().1);
    }
}

/// A run of as many cycles as the period, begun with the counter anywhere
/// from one up to the period, asks for exactly one liveness check.
pub proof fn lemma_one_check_per_period_of_run(state: EngineView, run: Seq<(EventView, int)>)
    requires
        1 <= state.cadence.cycles <= state.cadence.period,
        cycles_in_run(state, run) == state.cadence.period,
    ensures
        checks_in_run(state, run) == 1,
{
    lemma_run_follows_cadence(state, run);
    lemma_one_check_per_period(state.cadence.cycles, state.cadence.period);
}

/// A run of one cycle more than the period asks for exactly one liveness
/// check and ends with the counter where it began.
pub proof fn lemma_one_check_per_round_of_run(state: EngineView, run: Seq<(EventView, int)>)
    requires
        state.cadence.valid(),
        cycles_in_run(state, run) == state.cadence.period + 1,
    ensures
        checks_in_run(state, run) == 1,
        after_run(state, run).cadence == state.cadence,
{
    lemma_run_follows_cadence(state, run);
    lemma_one_check_per_round(state.cadence.cycles, state.cadence.period);
}

/// Whether no event of `run` begins a session or makes known a project
/// identity other than the one on record in `state`.
pub open spec fn keeps_project(state: EngineView, run: Seq<(EventView, int)>) -> bool
    decreases run.len(),
{
    if run.len() == 0 {
        true
    } else {
        let before = after_run(state, run.drop_last());
        &&& keeps_project(state, run.drop_last())
        &&& !enters_session(before, run.last().0)
        &&& observed_project(before, run.last().0) matches Some(project) ==> project
            == state.session.current_project
    }
}

/// Over any run that stays with one project, the start of the session stays
/// as it is, however often the status turns from idle to working and back.
pub proof fn lemma_session_start_is_kept_over_run(
    state: EngineView,
    run: Seq<(EventView, int)>,
)
    requires
        keeps_project(state, run),
    ensures
        after_run(state, run).session.session_start == state.session.session_start,
        after_run(state, run).session.current_project == state.session.current_project,
    decreases run.len(),
{
    if run.len() > 0 {
        lemma_session_start_is_kept_over_run(state, run.drop_last());
        let before = after_run(state, run.drop_last());
        lemma_session_start_is_kept(before, run.last().0, run.last().1);
    }
}

/// Over any run that starts in a valid state, every state is valid.
pub proof fn lemma_run_keeps_valid(state: EngineView, run: Seq<(EventView, int)>)
    requires
        state.valid(),
    ensures
        state.kept_by(after_run(state, run)),
    decreases run.len(),
{
    if run.len() > 0 {
        lemma_run_keeps_valid(state, run.drop_last());
        let before = after_run(state, run.drop_last());
        lemma_step_keeps_valid(before, run.last().0, run.last().1);
    }
}

} // verus!
