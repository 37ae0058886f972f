//! The status that is published to the chat client.

use crate::language::{AssetPair, AssetPairView, LanguageTable, LanguageTableView};
use crate::settings::{Settings, SettingsView};
use vstd::prelude::*;
use vstd::string::*;

verus! {

/// What a [`PresencePayload`] stands for.
pub struct PayloadView {
    pub details: Seq<char>,
    pub state: Seq<char>,
    pub assets: AssetPairView,
    pub started_at: int,
}

/// One status update: two lines of text, the label and icon of a language,
/// and the start of the elapsed time shown with them.
#[derive(Debug, PartialEq, Eq)]
pub struct PresencePayload {
    /// First line, what the user is doing.
    pub details: String,
    /// Second line, where the user is doing it.
    pub state: String,
    /// Label and icon of the language in use.
    pub assets: AssetPair,
    /// Start of the session.
    pub started_at: i64,
}

impl View for PresencePayload {
    type V = PayloadView;

    open spec fn view(&self) -> PayloadView {
        PayloadView {
            details: self.details@,
            state: self.state@,
            assets: self.assets@,
            started_at: self.started_at as int,
        }
    }
}

/// The second line of a working status: the project's name, unless it is to
/// be hidden.
pub open spec fn state_line(settings: SettingsView, project: Seq<char>) -> Seq<char> {
    if settings.hide_project {
        "in a Project"@
    } else {
        "in "@ + project
    }
}

/// The first line of a working status: the file's name, unless it is to be
/// hidden.
pub open spec fn details_line(settings: SettingsView, file: Seq<char>) -> Seq<char> {
    if settings.hide_file {
        "Working on a file"@
    } else {
        "Working on "@ + file
    }
}

/// The label and icon of a working status: those of the file's language,
/// unless the file is to be hidden.
pub open spec fn file_assets(
    settings: SettingsView,
    languages: LanguageTableView,
    file: Seq<char>,
) -> AssetPairView {
    if settings.hide_file {
        languages.unknown
    } else {
        languages.assets_for(file)
    }
}

impl PayloadView {
    /// The status of an idle user.
    pub open spec fn idle(languages: LanguageTableView, started_at: int) -> PayloadView {
        PayloadView {
            details: "Idle"@,
            state: "Idle"@,
            assets: languages.unknown,
            started_at,
        }
    }

    /// The status of a user at work on `file` in `project`.
    pub open spec fn working(
        settings: SettingsView,
        languages: LanguageTableView,
        project: Seq<char>,
        file: Seq<char>,
        started_at: int,
    ) -> PayloadView {
        PayloadView {
            details: details_line(settings, file),
            state: state_line(settings, project),
            assets: file_assets(settings, languages, file),
            started_at,
        }
    }
}

/// The second line of a working status.
pub fn get_project_state(settings: &Settings, project: &str) -> (state: String)
    ensures
        state@ == state_line(settings@, project@),
{
    if settings.hide_project() {
        String::from_str("in a Project")
    } else {
        String::from_str("in ").concat(project)
    }
}

/// The first line of a working status, and the label and icon that go with
/// it. With the file hidden its name is not looked at.
pub fn get_file_details(
    settings: &Settings,
    languages: &LanguageTable,
    file: &str,
) -> (found: (String, AssetPair))
    ensures
        found.0@ == details_line(settings@, file@),
        found.1@ == file_assets(settings@, languages@, file@),
{
    if settings.hide_file() {
        (String::from_str("Working on a file"), languages.unknown())
    } else {
        (String::from_str("Working on ").concat(file), languages.assets_for(file))
    }
}

/// The status to publish while the user is idle.
pub fn idle_payload(languages: &LanguageTable, started_at: i64) -> (payload: PresencePayload)
    ensures
        payload@ == PayloadView::idle(languages@, started_at as int),
{
    PresencePayload {
        details: String::from_str("Idle"),
        state: String::from_str("Idle"),
        assets: languages.unknown(),
        started_at,
    }
}

/// The status to publish while the user works on `file` in `project`.
pub fn working_payload(
    settings: &Settings,
    languages: &LanguageTable,
    project: &str,
    file: &str,
    started_at: i64,
) -> (payload: PresencePayload)
    ensures
        payload@ == PayloadView::working(
            settings@,
            languages@,
            project@,
            file@,
            started_at as int,
        ),
{
    let (details, assets) = get_file_details(settings, languages, file);
    let state = get_project_state(settings, project);
    PresencePayload { details, state, assets, started_at }
}

/// With the project hidden, the second line of a working status is the same
/// for every project; with the file hidden, its first line, label and icon
/// are the same for every file.
pub proof fn lemma_privacy_toggles(
    settings: SettingsView,
    languages: LanguageTableView,
    project: Seq<char>,
    file: Seq<char>,
    started_at: int,
)
    ensures
        settings.hide_project ==> PayloadView::working(
            settings,
            languages,
            project,
            file,
            started_at,
        ).state == "in a Project"@,
        settings.hide_file ==> PayloadView::working(
            settings,
            languages,
            project,
            file,
            started_at,
        ).details == "Working on a file"@,
        settings.hide_file ==> PayloadView::working(
            settings,
            languages,
            project,
            file,
            started_at,
        ).assets == languages.unknown,
{
}

} // verus!
