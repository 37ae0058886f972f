//! The engine as a state machine: its state, and the transition that each
//! event makes it take.

use crate::backoff::{increased, is_multiplier};
use crate::cadence::{check_due, cycles_after, CadenceView};
use crate::language::LanguageTableView;
use crate::payload::PayloadView;
use crate::protocol::{ActionView, EngineError, EventView, Phase};
use crate::session::SessionView;
use crate::settings::SettingsView;
use vstd::prelude::*;

verus! {

/// What an [`XcodeState`](crate::xcode_state::XcodeState) stands for.
pub struct EngineView {
    pub settings: SettingsView,
    pub languages: LanguageTableView,
    /// Whether the editor was running when last checked.
    pub app_running: bool,
    /// Whether the chat client is believed to show a status of ours.
    pub client_connected: bool,
    /// Polling cycles since the last liveness check.
    pub cadence: CadenceView,
    /// Factor that scales the poll interval.
    pub backoff: int,
    /// State of the working loop; meaningful from the moment a session is
    /// entered.
    pub session: SessionView,
    pub phase: Phase,
}

impl EngineView {
    /// What holds of every engine: valid settings, a counter within the
    /// configured period, an allowed multiplier, and a phase that fits what
    /// is known of the editor and the chat client.
    pub open spec fn valid(self) -> bool {
        &&& self.settings.valid()
        &&& self.cadence.valid()
        &&& self.cadence.period == self.settings.liveness_recheck_period
        &&& is_multiplier(self.backoff)
        &&& self.phase.in_session() ==> self.app_running && self.client_connected
        &&& self.phase == Phase::Connecting ==> self.app_running
        &&& self.phase == Phase::Clearing ==> !self.app_running && self.client_connected
    }

    /// Whether `next` is a valid state with the settings and the language
    /// table of this one.
    pub open spec fn kept_by(self, next: EngineView) -> bool {
        &&& next.valid()
        &&& next.settings == self.settings
        &&& next.languages == self.languages
    }

    /// A new engine: nothing known to run, nothing connected, no backoff,
    /// and a liveness check due at once.
    pub open spec fn initial(settings: SettingsView, languages: LanguageTableView) -> EngineView {
        EngineView {
            settings,
            languages,
            app_running: false,
            client_connected: false,
            cadence: CadenceView {
                cycles: settings.liveness_recheck_period as int,
                period: settings.liveness_recheck_period as int,
            },
            backoff: 1,
            session: SessionView::begin(0),
            phase: Phase::Polling,
        }
    }

    /// Giving up for good.
    pub open spec fn fail(self, error: EngineError) -> (EngineView, ActionView) {
        (EngineView { phase: Phase::Failed(error), ..self }, ActionView::Fail(error))
    }

    /// Something was not ready: the multiplier goes up, and the engine
    /// pauses for the poll interval scaled by it before it goes on in phase
    /// `next`.
    pub open spec fn back_off(self, next: Phase) -> (EngineView, ActionView) {
        let backoff = increased(self.backoff);
        (
            EngineView { backoff, phase: next, ..self },
            ActionView::Sleep(self.settings.poll_interval * backoff),
        )
    }

    /// One cycle of the liveness cadence: either the check is due, and is
    /// asked for in phase `checking`, or the counter advances and the state
    /// goes on with what is already known.
    pub open spec fn cycle(self, checking: Phase) -> (EngineView, Option<ActionView>) {
        let cadence = CadenceView {
            cycles: cycles_after(self.cadence.cycles, self.cadence.period),
            period: self.cadence.period,
        };
        if check_due(self.cadence.cycles, self.cadence.period) {
            (EngineView { cadence, phase: checking, ..self }, Some(ActionView::CheckApp))
        } else {
            (EngineView { cadence, ..self }, None)
        }
    }

    /// Start of a round of availability checks.
    pub open spec fn poll(self) -> (EngineView, ActionView) {
        match self.cycle(Phase::CheckingApp) {
            (next, Some(action)) => (next, action),
            (next, None) => next.availability(),
        }
    }

    /// The rest of the round, once it is settled whether the editor runs.
    /// Editor down: a status that may still be shown is cleared, else the
    /// engine backs off. Editor up: the backoff is reset and the chat client
    /// is contacted.
    pub open spec fn availability(self) -> (EngineView, ActionView) {
        if !self.app_running {
            if self.client_connected {
                (EngineView { phase: Phase::Clearing, ..self }, ActionView::ClearActivity)
            } else {
                self.back_off(Phase::Polling)
            }
        } else {
            (EngineView { backoff: 1, phase: Phase::Connecting, ..self }, ActionView::Connect)
        }
    }

    /// The chat client is lost or was never there.
    pub open spec fn disconnected(self) -> (EngineView, ActionView) {
        (EngineView { client_connected: false, ..self }).back_off(Phase::Polling)
    }

    /// The chat client is connected: a session begins at `now`.
    pub open spec fn enter_session(self, now: int) -> (EngineView, ActionView) {
        (EngineView {
            client_connected: true,
            backoff: 1,
            session: SessionView::begin(now),
            ..self
        }).next_tick()
    }

    /// Start of one pass through the working loop.
    pub open spec fn next_tick(self) -> (EngineView, ActionView) {
        (EngineView { phase: Phase::ReadingFocus, ..self }, ActionView::CheckFrontmost)
    }

    /// It is known whether the editor is frontmost. The project is asked
    /// for next, unless it is hidden: then it counts as empty without being
    /// asked for.
    pub open spec fn focus_known(self, frontmost: bool, now: int) -> (EngineView, ActionView) {
        let noted = EngineView { session: self.session.focus_noted(frontmost, now), ..self };
        if self.settings.hide_project {
            noted.project_known(Seq::empty(), now)
        } else {
            (EngineView { phase: Phase::ReadingProject, ..noted }, ActionView::ReadProject)
        }
    }

    /// The project is known. No project, or an idle user, gives the idle
    /// status. Otherwise the file is asked for next, unless it is hidden:
    /// then the working status goes out without it.
    pub open spec fn project_known(self, project: Seq<char>, now: int) -> (EngineView, ActionView) {
        let session = self.session.project_observed(project, now);
        let seen = EngineView { session, ..self };
        if project.len() == 0 || session.is_idle(now, self.settings.idle_threshold as int) {
            (
                EngineView { phase: Phase::PublishingIdle, ..seen },
                ActionView::SetActivity(PayloadView::idle(self.languages, session.session_start)),
            )
        } else if self.settings.hide_file {
            seen.file_known(Seq::empty())
        } else {
            (EngineView { phase: Phase::ReadingFile, ..seen }, ActionView::ReadFile)
        }
    }

    /// The file is known, as far as it is wanted: the working status goes
    /// out.
    pub open spec fn file_known(self, file: Seq<char>) -> (EngineView, ActionView) {
        (
            EngineView { phase: Phase::PublishingWork, ..self },
            ActionView::SetActivity(
                PayloadView::working(
                    self.settings,
                    self.languages,
                    self.session.current_project,
                    file,
                    self.session.session_start,
                ),
            ),
        )
    }

    /// The working status is out: the backoff is reset and the engine
    /// pauses for the fixed interval.
    pub open spec fn work_published(self) -> (EngineView, ActionView) {
        (
            EngineView { backoff: 1, phase: Phase::Resting, ..self },
            ActionView::Sleep(self.settings.activity_poll_interval as int),
        )
    }

    /// End of a pass through the working loop: the liveness cadence runs
    /// one cycle. Without a check the editor counts as still running, and
    /// the next pass begins.
    pub open spec fn recheck(self) -> (EngineView, ActionView) {
        match self.cycle(Phase::RecheckingApp) {
            (next, Some(action)) => (next, action),
            (next, None) => next.next_tick(),
        }
    }

    /// After a check inside a session: the working loop goes on while the
    /// editor runs; once it is gone the session is over and a round of
    /// availability checks follows at once.
    pub open spec fn resume(self) -> (EngineView, ActionView) {
        if self.app_running {
            self.next_tick()
        } else {
            self.poll()
        }
    }

    /// The transition function: the state and the action that follow when
    /// `event` arrives at time `now`. A failed engine stays failed; an event
    /// that does not answer the action asked for makes it fail.
    pub open spec fn step(self, event: EventView, now: int) -> (EngineView, ActionView) {
        match self.phase {
            Phase::Failed(error) => (self, ActionView::Fail(error)),
            Phase::Polling => match event {
                EventView::Woke => self.poll(),
                _ => self.fail(EngineError::UnexpectedEvent),
            },
            Phase::CheckingApp => match event {
                EventView::AppRunning(running) => (EngineView {
                    app_running: running,
                    ..self
                }).availability(),
                EventView::ProbeFailed => self.fail(EngineError::Probe),
                _ => self.fail(EngineError::UnexpectedEvent),
            },
            Phase::Clearing => match event {
                EventView::SinkDone => self.disconnected(),
                EventView::SinkFailed => self.disconnected(),
                _ => self.fail(EngineError::UnexpectedEvent),
            },
            Phase::Connecting => match event {
                EventView::SinkDone => self.enter_session(now),
                EventView::SinkFailed => self.disconnected(),
                _ => self.fail(EngineError::UnexpectedEvent),
            },
            Phase::ReadingFocus => match event {
                EventView::Frontmost(frontmost) => self.focus_known(frontmost, now),
                EventView::ProbeFailed => self.fail(EngineError::Probe),
                _ => self.fail(EngineError::UnexpectedEvent),
            },
            Phase::ReadingProject => match event {
                EventView::Project(project) => self.project_known(project, now),
                EventView::ProbeFailed => self.fail(EngineError::Probe),
                _ => self.fail(EngineError::UnexpectedEvent),
            },
            Phase::ReadingFile => match event {
                EventView::File(file) => self.file_known(file),
                EventView::ProbeFailed => self.fail(EngineError::Probe),
                _ => self.fail(EngineError::UnexpectedEvent),
            },
            Phase::PublishingIdle => match event {
                EventView::SinkDone => self.back_off(Phase::Resting),
                EventView::SinkFailed => self.fail(EngineError::Sink),
                _ => self.fail(EngineError::UnexpectedEvent),
            },
            Phase::PublishingWork => match event {
                EventView::SinkDone => self.work_published(),
                EventView::SinkFailed => self.fail(EngineError::Sink),
                _ => self.fail(EngineError::UnexpectedEvent),
            },
            Phase::Resting => match event {
                EventView::Woke => self.recheck(),
                _ => self.fail(EngineError::UnexpectedEvent),
            },
            Phase::RecheckingApp => match event {
                EventView::AppRunning(running) => (EngineView {
                    app_running: running,
                    ..self
                }).resume(),
                EventView::ProbeFailed => self.fail(EngineError::Probe),
                _ => self.fail(EngineError::UnexpectedEvent),
            },
        }
    }
}

/// Every transition leads from a valid state to a valid state, and leaves
/// settings and language table as they are.
pub proof fn lemma_step_keeps_valid(state: EngineView, event: EventView, now: int)
    requires
        state.valid(),
    ensures
        state.kept_by(state.step(event, now).0),
{
}

} // verus!
