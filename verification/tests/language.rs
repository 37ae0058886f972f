use xcode_discord_rpc::language::{file_extension, AssetPair, LanguageTable};

fn table() -> LanguageTable {
    let mut table = LanguageTable::new(AssetPair::new("Xcode", "xcode"));
    table.register("swift", AssetPair::new("Swift", "swift"));
    table.register("cpp", AssetPair::new("C++", "cpp"));
    table.register("m", AssetPair::new("Objective-C", "objc"));
    table
}

#[test]
fn asset_pair_holds_label_and_icon() {
    let pair = AssetPair::new("Swift", "swift");
    assert_eq!(pair.text, "Swift");
    assert_eq!(pair.image, "swift");
    assert_eq!(pair.duplicate(), pair);
}

#[test]
fn extension_follows_the_last_dot() {
    assert_eq!(file_extension("main.swift"), Some(String::from("swift")));
    assert_eq!(file_extension("archive.tar.gz"), Some(String::from("gz")));
    assert_eq!(file_extension("a.b"), Some(String::from("b")));
}

#[test]
fn extension_is_absent_without_a_dot() {
    assert_eq!(file_extension("Makefile"), None);
    assert_eq!(file_extension(""), None);
}

#[test]
fn extension_is_empty_after_a_trailing_dot() {
    assert_eq!(file_extension("notes."), Some(String::new()));
    assert_eq!(file_extension("."), Some(String::new()));
    assert_eq!(file_extension(".."), Some(String::new()));
}

#[test]
fn extension_of_a_name_that_starts_with_a_dot() {
    assert_eq!(file_extension(".gitignore"), Some(String::from("gitignore")));
}

#[test]
fn extension_counts_characters_not_bytes() {
    assert_eq!(file_extension("héllo wörld.swift"), Some(String::from("swift")));
    assert_eq!(file_extension("日本語.日本"), Some(String::from("日本")));
    assert_eq!(file_extension("naïve"), None);
}

#[test]
fn lookup_finds_registered_extensions() {
    let table = table();
    assert_eq!(table.lookup("swift"), AssetPair::new("Swift", "swift"));
    assert_eq!(table.lookup("cpp"), AssetPair::new("C++", "cpp"));
    assert_eq!(table.lookup("m"), AssetPair::new("Objective-C", "objc"));
}

#[test]
fn lookup_answers_unknown_for_everything_else() {
    let table = table();
    assert_eq!(table.lookup("rs"), AssetPair::new("Xcode", "xcode"));
    assert_eq!(table.lookup(""), AssetPair::new("Xcode", "xcode"));
    assert_eq!(table.lookup("Swift"), AssetPair::new("Xcode", "xcode"));
    assert_eq!(table.lookup("swif"), AssetPair::new("Xcode", "xcode"));
    assert_eq!(table.unknown(), AssetPair::new("Xcode", "xcode"));
}

#[test]
fn lookup_in_an_empty_table_is_unknown() {
    let table = LanguageTable::new(AssetPair::new("Unknown", "generic"));
    assert_eq!(table.lookup("swift"), AssetPair::new("Unknown", "generic"));
}

#[test]
fn registering_again_replaces_the_pair() {
    let mut table = table();
    table.register("swift", AssetPair::new("Swift 6", "swift6"));
    assert_eq!(table.lookup("swift"), AssetPair::new("Swift 6", "swift6"));
    assert_eq!(table.lookup("cpp"), AssetPair::new("C++", "cpp"));
}

#[test]
fn assets_for_a_file_go_by_its_extension() {
    let table = table();
    assert_eq!(table.assets_for("main.swift"), AssetPair::new("Swift", "swift"));
    assert_eq!(table.assets_for("view.swift.cpp"), AssetPair::new("C++", "cpp"));
    assert_eq!(table.assets_for("AppDelegate.m"), AssetPair::new("Objective-C", "objc"));
}

#[test]
fn assets_for_a_file_without_known_extension_are_unknown() {
    let table = table();
    assert_eq!(table.assets_for("Makefile"), AssetPair::new("Xcode", "xcode"));
    assert_eq!(table.assets_for("swift"), AssetPair::new("Xcode", "xcode"));
    assert_eq!(table.assets_for("notes.txt"), AssetPair::new("Xcode", "xcode"));
    assert_eq!(table.assets_for("main.swift."), AssetPair::new("Xcode", "xcode"));
    assert_eq!(table.assets_for(""), AssetPair::new("Xcode", "xcode"));
}

#[test]
fn an_empty_extension_can_be_registered() {
    let mut table = table();
    table.register("", AssetPair::new("Plain", "plain"));
    assert_eq!(table.assets_for("notes."), AssetPair::new("Plain", "plain"));
    assert_eq!(table.assets_for("notes"), AssetPair::new("Xcode", "xcode"));
}
