//! The engine: one state, one transition per event.
//!
//! Whoever drives the engine starts with [`Event::Woke`], performs each
//! [`Action`] it answers with, and reports what came of it together with the
//! current time.

use crate::backoff::Backoff;
use crate::cadence::Cadence;
use crate::language::LanguageTable;
use crate::model::{lemma_step_keeps_valid, EngineView};
use crate::payload::{idle_payload, working_payload};
use crate::protocol::{Action, EngineError, Event, Phase};
use crate::session::ActivitySession;
use crate::settings::Settings;
use vstd::prelude::*;
use vstd::string::*;

verus! {

/// The state of the presence engine.
#[derive(Debug)]
pub struct XcodeState {
    settings: Settings,
    languages: LanguageTable,
    app_running: bool,
    client_connected: bool,
    cadence: Cadence,
    backoff: Backoff,
    session: ActivitySession,
    phase: Phase,
}

impl View for XcodeState {
    type V = EngineView;

    closed spec fn view(&self) -> EngineView {
        EngineView {
            settings: self.settings@,
            languages: self.languages@,
            app_running: self.app_running,
            client_connected: self.client_connected,
            cadence: self.cadence@,
            backoff: self.backoff@,
            session: self.session@,
            phase: self.phase,
        }
    }
}

impl XcodeState {
    /// A new engine for `config` that names languages after `languages`.
    /// It waits for [`Event::Woke`].
    pub fn new(config: &Settings, languages: LanguageTable) -> (state: Self)
        ensures
            state@ == EngineView::initial(config@, languages@),
            state@.valid(),
    {
        proof {
            use_type_invariant(config);
        }
        XcodeState {
            settings: *config,
            languages,
            app_running: false,
            client_connected: false,
            cadence: Cadence::new(config.liveness_recheck_period()),
            backoff: Backoff::new(),
            session: ActivitySession::begin(0),
            phase: Phase::Polling,
        }
    }

    /// Takes in what came of the last action, at time `now`, and says what
    /// to do next.
    pub fn step(&mut self, event: Event, now: i64) -> (action: Action)
        ensures
            (final(self)@, action@) == old(self)@.step(event@, now as int),
            old(self)@.valid() ==> final(self)@.valid(),
    {
        proof {
            if self@.valid() {
                lemma_step_keeps_valid(self@, event@, now as int);
            }
        }
        match self.phase {
            Phase::Failed(error) => Action::Fail(error),
            Phase::Polling => self.when_polling(event),
            Phase::CheckingApp => self.when_checking_app(event),
            Phase::Clearing => self.when_clearing(event),
            Phase::Connecting => self.when_connecting(event, now),
            Phase::ReadingFocus => self.when_reading_focus(event, now),
            Phase::ReadingProject => self.when_reading_project(event, now),
            Phase::ReadingFile => self.when_reading_file(event),
            Phase::PublishingIdle => self.when_publishing_idle(event),
            Phase::PublishingWork => self.when_publishing_work(event),
            Phase::Resting => self.when_resting(event),
            Phase::RecheckingApp => self.when_rechecking_app(event),
        }
    }

    fn when_polling(&mut self, event: Event) -> (action: Action)
        requires
            old(self)@.phase == Phase::Polling,
        ensures
            forall|now: int| (final(self)@, action@) == old(self)@.step(event@, now),
    {
        match event {
            Event::Woke => self.poll(),
            _ => self.fail(EngineError::UnexpectedEvent),
        }
    }

    fn when_checking_app(&mut self, event: Event) -> (action: Action)
        requires
            old(self)@.phase == Phase::CheckingApp,
        ensures
            forall|now: int| (final(self)@, action@) == old(self)@.step(event@, now),
    {
        match event {
            Event::AppRunning(running) => {
                self.app_running = running;
                self.availability()
            },
            Event::ProbeFailed => self.fail(EngineError::Probe),
            _ => self.fail(EngineError::UnexpectedEvent),
        }
    }

    fn when_clearing(&mut self, event: Event) -> (action: Action)
        requires
            old(self)@.phase == Phase::Clearing,
        ensures
            forall|now: int| (final(self)@, action@) == old(self)@.step(event@, now),
    {
        match event {
            Event::SinkDone => self.disconnected(),
            Event::SinkFailed => self.disconnected(),
            _ => self.fail(EngineError::UnexpectedEvent),
        }
    }

    fn when_connecting(&mut self, event: Event, now: i64) -> (action: Action)
        requires
            old(self)@.phase == Phase::Connecting,
        ensures
            (final(self)@, action@) == old(self)@.step(event@, now as int),
    {
        match event {
            Event::SinkDone => {
                self.client_connected = true;
                self.backoff.reset();
                self.session = ActivitySession::begin(now);
                self.next_tick()
            },
            Event::SinkFailed => self.disconnected(),
            _ => self.fail(EngineError::UnexpectedEvent),
        }
    }

    fn when_reading_focus(&mut self, event: Event, now: i64) -> (action: Action)
        requires
            old(self)@.phase == Phase::ReadingFocus,
        ensures
            (final(self)@, action@) == old(self)@.step(event@, now as int),
    {
        match event {
            Event::Frontmost(frontmost) => {
                self.session.note_focus(frontmost, now);
                if self.settings.hide_project() {
                    self.project_known(String::new(), now)
                } else {
                    self.phase = Phase::ReadingProject;
                    Action::ReadProject
                }
            },
            Event::ProbeFailed => self.fail(EngineError::Probe),
            _ => self.fail(EngineError::UnexpectedEvent),
        }
    }

    fn when_reading_project(&mut self, event: Event, now: i64) -> (action: Action)
        requires
            old(self)@.phase == Phase::ReadingProject,
        ensures
            (final(self)@, action@) == old(self)@.step(event@, now as int),
    {
        match event {
            Event::Project(project) => self.project_known(project, now),
            Event::ProbeFailed => self.fail(EngineError::Probe),
            _ => self.fail(EngineError::UnexpectedEvent),
        }
    }

    fn when_reading_file(&mut self, event: Event) -> (action: Action)
        requires
            old(self)@.phase == Phase::ReadingFile,
        ensures
            forall|now: int| (final(self)@, action@) == old(self)@.step(event@, now),
    {
        match event {
            Event::File(file) => self.file_known(file.as_str()),
            Event::ProbeFailed => self.fail(EngineError::Probe),
            _ => self.fail(EngineError::UnexpectedEvent),
        }
    }

    fn when_publishing_idle(&mut self, event: Event) -> (action: Action)
        requires
            old(self)@.phase == Phase::PublishingIdle,
        ensures
            forall|now: int| (final(self)@, action@) == old(self)@.step(event@, now),
    {
        match event {
            Event::SinkDone => self.back_off(Phase::Resting),
            Event::SinkFailed => self.fail(EngineError::Sink),
            _ => self.fail(EngineError::UnexpectedEvent),
        }
    }

    fn when_publishing_work(&mut self, event: Event) -> (action: Action)
        requires
            old(self)@.phase == Phase::PublishingWork,
        ensures
            forall|now: int| (final(self)@, action@) == old(self)@.step(event@, now),
    {
        match event {
            Event::SinkDone => {
                self.backoff.reset();
                self.phase = Phase::Resting;
                Action::Sleep(self.settings.activity_poll_interval())
            },
            Event::SinkFailed => self.fail(EngineError::Sink),
            _ => self.fail(EngineError::UnexpectedEvent),
        }
    }

    fn when_resting(&mut self, event: Event) -> (action: Action)
        requires
            old(self)@.phase == Phase::Resting,
        ensures
            forall|now: int| (final(self)@, action@) == old(self)@.step(event@, now),
    {
        match event {
            Event::Woke => {
                if self.cadence.tick() {
                    self.phase = Phase::RecheckingApp;
                    Action::CheckApp
                } else {
                    self.next_tick()
                }
            },
            _ => self.fail(EngineError::UnexpectedEvent),
        }
    }

    fn when_rechecking_app(&mut self, event: Event) -> (action: Action)
        requires
            old(self)@.phase == Phase::RecheckingApp,
        ensures
            forall|now: int| (final(self)@, action@) == old(self)@.step(event@, now),
    {
        match event {
            Event::AppRunning(running) => {
                self.app_running = running;
                self.resume()
            },
            Event::ProbeFailed => self.fail(EngineError::Probe),
            _ => self.fail(EngineError::UnexpectedEvent),
        }
    }

    fn fail(&mut self, error: EngineError) -> (action: Action)
        ensures
            (final(self)@, action@) == old(self)@.fail(error),
    {
        self.phase = Phase::Failed(error);
        Action::Fail(error)
    }

    fn back_off(&mut self, next: Phase) -> (action: Action)
        ensures
            (final(self)@, action@) == old(self)@.back_off(next),
    {
        self.backoff.increase();
        self.phase = next;
        Action::Sleep(self.backoff.scale(self.settings.poll_interval()))
    }

    fn poll(&mut self) -> (action: Action)
        ensures
            (final(self)@, action@) == old(self)@.poll(),
    {
        if self.cadence.tick() {
            self.phase = Phase::CheckingApp;
            Action::CheckApp
        } else {
            self.availability()
        }
    }

    fn availability(&mut self) -> (action: Action)
        ensures
            (final(self)@, action@) == old(self)@.availability(),
    {
        if !self.app_running {
            if self.client_connected {
                self.phase = Phase::Clearing;
                Action::ClearActivity
            } else {
                self.back_off(Phase::Polling)
            }
        } else {
            self.backoff.reset();
            self.phase = Phase::Connecting;
            Action::Connect
        }
    }

    fn disconnected(&mut self) -> (action: Action)
        ensures
            (final(self)@, action@) == old(self)@.disconnected(),
    {
        self.client_connected = false;
        self.back_off(Phase::Polling)
    }

    fn next_tick(&mut self) -> (action: Action)
        ensures
            (final(self)@, action@) == old(self)@.next_tick(),
    {
        self.phase = Phase::ReadingFocus;
        Action::CheckFrontmost
    }

    fn project_known(&mut self, project: String, now: i64) -> (action: Action)
        ensures
            (final(self)@, action@) == old(self)@.project_known(project@, now as int),
    {
        let absent = project.as_str().is_empty();
        self.session.observe_project(project, now);
        if absent || self.session.is_idle(now, self.settings.idle_threshold()) {
            self.phase = Phase::PublishingIdle;
            Action::SetActivity(idle_payload(&self.languages, self.session.session_start()))
        } else if self.settings.hide_file() {
            self.file_known("")
        } else {
            self.phase = Phase::ReadingFile;
            Action::ReadFile
        }
    }

    fn file_known(&mut self, file: &str) -> (action: Action)
        ensures
            (final(self)@, action@) == old(self)@.file_known(file@),
    {
        self.phase = Phase::PublishingWork;
        Action::SetActivity(
            working_payload(
                &self.settings,
                &self.languages,
                self.session.current_project(),
                file,
                self.session.session_start(),
            ),
        )
    }

    fn resume(&mut self) -> (action: Action)
        ensures
            (final(self)@, action@) == old(self)@.resume(),
    {
        if self.app_running {
            self.next_tick()
        } else {
            self.poll()
        }
    }

    /// The settings the engine was made with.
    pub fn settings(&self) -> (settings: Settings)
        ensures
            settings@ == self@.settings,
    {
        self.settings
    }

    /// Whether the editor was running when last checked.
    pub fn app_running(&self) -> (running: bool)
        ensures
            running == self@.app_running,
    {
        self.app_running
    }

    /// Whether the chat client is believed to show a status of ours.
    pub fn client_connected(&self) -> (connected: bool)
        ensures
            connected == self@.client_connected,
    {
        self.client_connected
    }

    /// Polling cycles since the last liveness check.
    pub fn cycles_since_liveness_check(&self) -> (cycles: u8)
        ensures
            cycles == self@.cadence.cycles,
    {
        self.cadence.cycles()
    }

    /// Factor that currently scales the poll interval.
    pub fn backoff_multiplier(&self) -> (multiplier: u64)
        ensures
            multiplier == self@.backoff,
    {
        self.backoff.multiplier()
    }

    /// When the displayed elapsed time started.
    pub fn session_start(&self) -> (start: i64)
        ensures
            start == self@.session.session_start,
    {
        self.session.session_start()
    }

    /// The project identity observed last.
    pub fn current_project(&self) -> (project: &str)
        ensures
            project@ == self@.session.current_project,
    {
        self.session.current_project()
    }

    /// When the editor was last seen in the foreground.
    pub fn last_focused_at(&self) -> (at: i64)
        ensures
            at == self@.session.last_focused_at,
    {
        self.session.last_focused_at()
    }

    /// What the engine is waiting for.
    pub fn phase(&self) -> (phase: Phase)
        ensures
            phase == self@.phase,
    {
        self.phase
    }
}

} // verus!
