use xcode_discord_rpc::language::{AssetPair, LanguageTable};
use xcode_discord_rpc::payload::{
    get_file_details, get_project_state, idle_payload, working_payload, PresencePayload,
};
use xcode_discord_rpc::settings::Settings;

fn languages() -> LanguageTable {
    let mut table = LanguageTable::new(AssetPair::new("Xcode", "xcode"));
    table.register("swift", AssetPair::new("Swift", "swift"));
    table
}

fn settings(hide_project: bool, hide_file: bool) -> Settings {
    Settings::new(5, 2, 3, 300, hide_project, hide_file).unwrap()
}

#[test]
fn idle_payload_says_idle_twice() {
    let payload = idle_payload(&languages(), 1_234);
    assert_eq!(
        payload,
        PresencePayload {
            details: String::from("Idle"),
            state: String::from("Idle"),
            assets: AssetPair::new("Xcode", "xcode"),
            started_at: 1_234,
        }
    );
}

#[test]
fn working_payload_names_file_project_and_language() {
    let payload = working_payload(&settings(false, false), &languages(), "MyApp", "main.swift", 77);
    assert_eq!(
        payload,
        PresencePayload {
            details: String::from("Working on main.swift"),
            state: String::from("in MyApp"),
            assets: AssetPair::new("Swift", "swift"),
            started_at: 77,
        }
    );
}

#[test]
fn working_payload_for_a_file_of_unknown_language() {
    let payload = working_payload(&settings(false, false), &languages(), "MyApp", "README", -5);
    assert_eq!(payload.details, "Working on README");
    assert_eq!(payload.assets, AssetPair::new("Xcode", "xcode"));
    assert_eq!(payload.started_at, -5);
}

#[test]
fn hidden_project_is_never_named() {
    for project in ["MyApp", "Secret", "", "in a Project"] {
        let payload =
            working_payload(&settings(true, false), &languages(), project, "main.swift", 0);
        assert_eq!(payload.state, "in a Project");
        assert_eq!(payload.details, "Working on main.swift");
        assert_eq!(get_project_state(&settings(true, true), project), "in a Project");
    }
}

#[test]
fn hidden_file_is_never_named_nor_its_language() {
    for file in ["main.swift", "secret.cpp", "", "README"] {
        let payload = working_payload(&settings(false, true), &languages(), "MyApp", file, 0);
        assert_eq!(payload.details, "Working on a file");
        assert_eq!(payload.assets, AssetPair::new("Xcode", "xcode"));
        assert_eq!(payload.state, "in MyApp");
    }
}

#[test]
fn both_hidden() {
    let payload = working_payload(&settings(true, true), &languages(), "MyApp", "main.swift", 9);
    assert_eq!(
        payload,
        PresencePayload {
            details: String::from("Working on a file"),
            state: String::from("in a Project"),
            assets: AssetPair::new("Xcode", "xcode"),
            started_at: 9,
        }
    );
}

#[test]
fn project_state_names_the_project() {
    assert_eq!(get_project_state(&settings(false, false), "MyApp"), "in MyApp");
    assert_eq!(get_project_state(&settings(false, true), "My App 2"), "in My App 2");
    assert_eq!(get_project_state(&settings(false, false), ""), "in ");
}

#[test]
fn file_details_name_the_file_and_its_language() {
    let (details, assets) = get_file_details(&settings(false, false), &languages(), "main.swift");
    assert_eq!(details, "Working on main.swift");
    assert_eq!(assets, AssetPair::new("Swift", "swift"));
    let (details, assets) = get_file_details(&settings(true, false), &languages(), "notes.txt");
    assert_eq!(details, "Working on notes.txt");
    assert_eq!(assets, AssetPair::new("Xcode", "xcode"));
}

#[test]
fn file_details_with_the_file_hidden() {
    let (details, assets) = get_file_details(&settings(false, true), &languages(), "main.swift");
    assert_eq!(details, "Working on a file");
    assert_eq!(assets, AssetPair::new("Xcode", "xcode"));
}
