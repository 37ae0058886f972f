//! The settings that govern polling, idleness and privacy.

use crate::backoff::MAX_MULTIPLIER;
use vstd::prelude::*;

verus! {

/// What [`Settings`] stand for. Durations and timestamps are whole seconds.
pub struct SettingsView {
    /// Base pause while the editor or the chat client is unavailable.
    pub poll_interval: u64,
    /// Pause between two updates while the user is working.
    pub activity_poll_interval: u64,
    /// Polling cycles between two full liveness checks of the editor.
    pub liveness_recheck_period: u8,
    /// How long the editor may be out of focus before the user counts as
    /// idle.
    pub idle_threshold: i64,
    /// Never reveal the project's name.
    pub hide_project: bool,
    /// Never reveal the file's name, nor its language.
    pub hide_file: bool,
}

impl SettingsView {
    /// The poll interval can be scaled by every multiplier the backoff may
    /// reach without leaving the range of `u64`.
    pub open spec fn valid(self) -> bool {
        self.poll_interval * MAX_MULTIPLIER <= u64::MAX
    }
}

/// Static configuration of the engine, checked once when it is made.
#[derive(Clone, Copy, Debug, PartialEq, Eq)]
pub struct Settings {
    poll_interval: u64,
    activity_poll_interval: u64,
    liveness_recheck_period: u8,
    idle_threshold: i64,
    hide_project: bool,
    hide_file: bool,
}

impl View for Settings {
    type V = SettingsView;

    closed spec fn view(&self) -> SettingsView {
        SettingsView {
            poll_interval: self.poll_interval,
            activity_poll_interval: self.activity_poll_interval,
            liveness_recheck_period: self.liveness_recheck_period,
            idle_threshold: self.idle_threshold,
            hide_project: self.hide_project,
            hide_file: self.hide_file,
        }
    }
}

impl Settings {
    /// Settings are always valid.
    #[verifier::type_invariant]
    pub open spec fn well_formed(self) -> bool {
        self@.valid()
    }

    /// Settings with the given values, unless the poll interval is too long
    /// to be scaled by the backoff.
    pub fn new(
        poll_interval: u64,
        activity_poll_interval: u64,
        liveness_recheck_period: u8,
        idle_threshold: i64,
        hide_project: bool,
        hide_file: bool,
    ) -> (settings: Option<Self>)
        ensures
            settings is Some <==> poll_interval * MAX_MULTIPLIER <= u64::MAX,
            settings matches Some(made) ==> made@ == (SettingsView {
                poll_interval,
                activity_poll_interval,
                liveness_recheck_period,
                idle_threshold,
                hide_project,
                hide_file,
            }),
    {
        if poll_interval <= u64::MAX / MAX_MULTIPLIER {
            Some(
                Settings {
                    poll_interval,
                    activity_poll_interval,
                    liveness_recheck_period,
                    idle_threshold,
                    hide_project,
                    hide_file,
                },
            )
        } else {
            None
        }
    }

    /// Base pause while the editor or the chat client is unavailable.
    pub fn poll_interval(&self) -> (seconds: u64)
        ensures
            seconds == self@.poll_interval,
            self@.valid(),
    {
        proof {
            use_type_invariant(self);
        }
        self.poll_interval
    }

    /// Pause between two updates while the user is working.
    pub fn activity_poll_interval(&self) -> (seconds: u64)
        ensures
            seconds == self@.activity_poll_interval,
    {
        self.activity_poll_interval
    }

    /// Polling cycles between two full liveness checks of the editor.
    pub fn liveness_recheck_period(&self) -> (cycles: u8)
        ensures
            cycles == self@.liveness_recheck_period,
    {
        self.liveness_recheck_period
    }

    /// How long the editor may be out of focus before the user counts as
    /// idle.
    pub fn idle_threshold(&self) -> (seconds: i64)
        ensures
            seconds == self@.idle_threshold,
    {
        self.idle_threshold
    }

    /// Whether the project's name is kept out of the status.
    pub fn hide_project(&self) -> (hide: bool)
        ensures
            hide == self@.hide_project,
    {
        self.hide_project
    }

    /// Whether the file's name and language are kept out of the status.
    pub fn hide_file(&self) -> (hide: bool)
        ensures
            hide == self@.hide_file,
    {
        self.hide_file
    }
}

} // verus!
