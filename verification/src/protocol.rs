//! What passes between the engine and whoever drives it.
//!
//! The engine performs no input or output of its own. It hands out one
//! [`Action`] at a time and is handed back, as an [`Event`], what came of it.

use crate::payload::{PayloadView, PresencePayload};
use vstd::prelude::*;
use vstd::string::*;

verus! {

/// Why the engine gave up.
#[derive(Clone, Copy, Debug, PartialEq, Eq)]
pub enum EngineError {
    /// A query about the editor failed.
    Probe,
    /// The chat client refused a status after it had accepted the
    /// connection.
    Sink,
    /// An event arrived that does not answer the action asked for.
    UnexpectedEvent,
}

/// What the engine is waiting for.
#[derive(Clone, Copy, Debug, PartialEq, Eq)]
pub enum Phase {
    /// For the pause before the next round of availability checks to end.
    Polling,
    /// For the answer whether the editor is running, outside a session.
    CheckingApp,
    /// For the published status to be cleared.
    Clearing,
    /// For the connection to the chat client.
    Connecting,
    /// For the answer whether the editor is frontmost.
    ReadingFocus,
    /// For the name of the project.
    ReadingProject,
    /// For the name of the file.
    ReadingFile,
    /// For the idle status to be published.
    PublishingIdle,
    /// For the working status to be published.
    PublishingWork,
    /// For the pause inside a session to end.
    Resting,
    /// For the answer whether the editor is running, inside a session.
    RecheckingApp,
    /// For nothing any more.
    Failed(EngineError),
}

impl Phase {
    /// Whether the phase belongs to the working loop, which runs while the
    /// editor is up and the chat client connected.
    pub open spec fn in_session(self) -> bool {
        match self {
            Phase::ReadingFocus => true,
            Phase::ReadingProject => true,
            Phase::ReadingFile => true,
            Phase::PublishingIdle => true,
            Phase::PublishingWork => true,
            Phase::Resting => true,
            Phase::RecheckingApp => true,
            _ => false,
        }
    }
}

/// What came of the action the engine asked for last.
#[derive(Debug, PartialEq, Eq)]
pub enum Event {
    /// The pause is over. Also the event that sets a new engine going.
    Woke,
    /// Whether the editor is running.
    AppRunning(bool),
    /// Whether the editor is frontmost.
    Frontmost(bool),
    /// The name of the open project, empty when there is none.
    Project(String),
    /// The name of the open file.
    File(String),
    /// The chat client did as asked.
    SinkDone,
    /// The chat client could not be reached or refused.
    SinkFailed,
    /// The editor could not be queried.
    ProbeFailed,
}

/// What an [`Event`] stands for.
pub enum EventView {
    Woke,
    AppRunning(bool),
    Frontmost(bool),
    Project(Seq<char>),
    File(Seq<char>),
    SinkDone,
    SinkFailed,
    ProbeFailed,
}

impl View for Event {
    type V = EventView;

    open spec fn view(&self) -> EventView {
        match self {
            Event::Woke => EventView::Woke,
            Event::AppRunning(running) => EventView::AppRunning(*running),
            Event::Frontmost(frontmost) => EventView::Frontmost(*frontmost),
            Event::Project(project) => EventView::Project(project@),
            Event::File(file) => EventView::File(file@),
            Event::SinkDone => EventView::SinkDone,
            Event::SinkFailed => EventView::SinkFailed,
            Event::ProbeFailed => EventView::ProbeFailed,
        }
    }
}

/// What the engine asks its driver to do next.
#[derive(Debug, PartialEq, Eq)]
pub enum Action {
    /// Ask whether the editor is running; answer with
    /// [`Event::AppRunning`] or [`Event::ProbeFailed`].
    CheckApp,
    /// Ask whether the editor is frontmost; answer with
    /// [`Event::Frontmost`] or [`Event::ProbeFailed`].
    CheckFrontmost,
    /// Ask for the project's name; answer with [`Event::Project`] or
    /// [`Event::ProbeFailed`].
    ReadProject,
    /// Ask for the file's name; answer with [`Event::File`] or
    /// [`Event::ProbeFailed`].
    ReadFile,
    /// Connect to the chat client; answer with [`Event::SinkDone`] or
    /// [`Event::SinkFailed`].
    Connect,
    /// Clear the published status; answer with [`Event::SinkDone`] or
    /// [`Event::SinkFailed`].
    ClearActivity,
    /// Publish this status; answer with [`Event::SinkDone`] or
    /// [`Event::SinkFailed`].
    SetActivity(PresencePayload),
    /// Pause for this many seconds; answer with [`Event::Woke`].
    Sleep(u64),
    /// Stop: the engine has failed for this reason.
    Fail(EngineError),
}

/// What an [`Action`] stands for.
pub enum ActionView {
    CheckApp,
    CheckFrontmost,
    ReadProject,
    ReadFile,
    Connect,
    ClearActivity,
    SetActivity(PayloadView),
    Sleep(int),
    Fail(EngineError),
}

impl View for Action {
    type V = ActionView;

    open spec fn view(&self) -> ActionView {
        match self {
            Action::CheckApp => ActionView::CheckApp,
            Action::CheckFrontmost => ActionView::CheckFrontmost,
            Action::ReadProject => ActionView::ReadProject,
            Action::ReadFile => ActionView::ReadFile,
            Action::Connect => ActionView::Connect,
            Action::ClearActivity => ActionView::ClearActivity,
            Action::SetActivity(payload) => ActionView::SetActivity(payload@),
            Action::Sleep(seconds) => ActionView::Sleep(*seconds as int),
            Action::Fail(error) => ActionView::Fail(*error),
        }
    }
}

} // verus!
