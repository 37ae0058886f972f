//! What the engine remembers about the current stretch of activity.

use vstd::prelude::*;
use vstd::string::*;

verus! {

/// What an [`ActivitySession`] stands for.
pub struct SessionView {
    /// When the elapsed-time clock shown to the user was started.
    pub session_start: int,
    /// The project identity observed last; empty when there is none.
    pub current_project: Seq<char>,
    /// When the editor was last seen in the foreground.
    pub last_focused_at: int,
}

impl SessionView {
    /// The session as it stands on entering the working loop at `now`.
    pub open spec fn begin(now: int) -> SessionView {
        SessionView { session_start: now, current_project: Seq::empty(), last_focused_at: now }
    }

    /// The session after learning at `now` whether the editor is frontmost.
    pub open spec fn focus_noted(self, frontmost: bool, now: int) -> SessionView {
        if frontmost {
            SessionView { last_focused_at: now, ..self }
        } else {
            self
        }
    }

    /// The session after observing `project` at `now`: a new identity
    /// restarts the clock, the same identity changes nothing.
    pub open spec fn project_observed(self, project: Seq<char>, now: int) -> SessionView {
        if project != self.current_project {
            SessionView { session_start: now, current_project: project, ..self }
        } else {
            self
        }
    }

    /// Whether at `now` the editor has been out of focus for longer than
    /// `threshold`.
    pub open spec fn is_idle(self, now: int, threshold: int) -> bool {
        now - self.last_focused_at > threshold
    }
}

/// Start of the displayed elapsed time, identity of the project it belongs
/// to, and the moment the editor last had focus.
#[derive(Debug)]
pub struct ActivitySession {
    session_start: i64,
    current_project: String,
    last_focused_at: i64,
}

impl View for ActivitySession {
    type V = SessionView;

    closed spec fn view(&self) -> SessionView {
        SessionView {
            session_start: self.session_start as int,
            current_project: self.current_project@,
            last_focused_at: self.last_focused_at as int,
        }
    }
}

impl ActivitySession {
    /// A fresh session that starts at `now`, with no project seen yet.
    pub fn begin(now: i64) -> (session: Self)
        ensures
            session@ == SessionView::begin(now as int),
    {
        ActivitySession { session_start: now, current_project: String::new(), last_focused_at: now }
    }

    /// Records whether the editor was found in the foreground at `now`.
    pub fn note_focus(&mut self, frontmost: bool, now: i64)
        ensures
            final(self)@ == old(self)@.focus_noted(frontmost, now as int),
    {
        if frontmost {
            self.last_focused_at = now;
        }
    }

    /// Records the project identity observed at `now` and tells whether it
    /// differs from the one seen before, in which case the session starts
    /// over at `now`.
    pub fn observe_project(&mut self, project: String, now: i64) -> (changed: bool)
        ensures
            final(self)@ == old(self)@.project_observed(project@, now as int),
            changed == (project@ != old(self)@.current_project),
    {
        let changed = !(self.current_project == project);
        if changed {
            self.session_start = now;
            self.current_project = project;
        }
        changed
    }

    /// Whether at `now` the editor has been out of focus for longer than
    /// `threshold`.
    pub fn is_idle(&self, now: i64, threshold: i64) -> (idle: bool)
        ensures
            idle == self@.is_idle(now as int, threshold as int),
    {
        now as i128 - self.last_focused_at as i128 > threshold as i128
    }

    /// When the displayed elapsed time started.
    pub fn session_start(&self) -> (start: i64)
        ensures
            start == self@.session_start,
    {
        self.session_start
    }

    /// The project identity observed last.
    pub fn current_project(&self) -> (project: &str)
        ensures
            project@ == self@.current_project,
    {
        self.current_project.as_str()
    }

    /// When the editor was last seen in the foreground.
    pub fn last_focused_at(&self) -> (at: i64)
        ensures
            at == self@.last_focused_at,
    {
        self.last_focused_at
    }
}

/// Observing the identity that is already on record leaves the session as
/// it is, whatever the focus did in between and whether or not the user
/// counts as idle.
pub proof fn lemma_session_continuity(
    session: SessionView,
    frontmost: bool,
    project: Seq<char>,
    focus_at: int,
    observed_at: int,
)
    requires
        project == session.current_project,
    ensures
        session.focus_noted(frontmost, focus_at).project_observed(
            project,
            observed_at,
        ).session_start == session.session_start,
        session.project_observed(project, observed_at) == session,
{
}

/// Observing another identity restarts the clock at the time of the
/// observation and puts the new identity on record.
pub proof fn lemma_session_reset(session: SessionView, project: Seq<char>, now: int)
    requires
        project != session.current_project,
    ensures
        session.project_observed(project, now).session_start == now,
        session.project_observed(project, now).current_project == project,
        session.project_observed(project, now).last_focused_at == session.last_focused_at,
{
}

/// Being out of focus for exactly the threshold is not yet idle; any longer
/// is.
pub proof fn lemma_idle_boundary(session: SessionView, threshold: int, now: int)
    ensures
        now - session.last_focused_at == threshold ==> !session.is_idle(now, threshold),
        now - session.last_focused_at > threshold ==> session.is_idle(now, threshold),
        now - session.last_focused_at < threshold ==> !session.is_idle(now, threshold),
{
}

} // verus!
