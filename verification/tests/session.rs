use xcode_discord_rpc::session::ActivitySession;

#[test]
fn session_begins_with_no_project() {
    let session = ActivitySession::begin(1_000);
    assert_eq!(session.session_start(), 1_000);
    assert_eq!(session.current_project(), "");
    assert_eq!(session.last_focused_at(), 1_000);
}

#[test]
fn session_start_is_kept_while_the_project_stays() {
    let mut session = ActivitySession::begin(1_000);
    assert!(session.observe_project(String::from("A"), 1_010));
    assert_eq!(session.session_start(), 1_010);
    for now in [1_020, 1_500, 9_000] {
        session.note_focus(now % 2 == 0, now);
        assert!(!session.observe_project(String::from("A"), now));
        assert_eq!(session.session_start(), 1_010);
        assert_eq!(session.current_project(), "A");
    }
}

#[test]
fn session_restarts_when_the_project_changes() {
    let mut session = ActivitySession::begin(1_000);
    session.observe_project(String::from("A"), 1_010);
    session.note_focus(true, 1_050);
    assert!(session.observe_project(String::from("B"), 2_000));
    assert_eq!(session.session_start(), 2_000);
    assert_eq!(session.current_project(), "B");
    assert_eq!(session.last_focused_at(), 1_050);
}

#[test]
fn session_does_not_restart_on_an_empty_project_when_none_is_on_record() {
    let mut session = ActivitySession::begin(1_000);
    assert!(!session.observe_project(String::new(), 1_500));
    assert_eq!(session.session_start(), 1_000);
}

#[test]
fn session_restarts_when_the_project_is_closed() {
    let mut session = ActivitySession::begin(1_000);
    session.observe_project(String::from("A"), 1_010);
    assert!(session.observe_project(String::new(), 1_700));
    assert_eq!(session.session_start(), 1_700);
    assert_eq!(session.current_project(), "");
}

#[test]
fn session_records_focus_only_when_frontmost() {
    let mut session = ActivitySession::begin(1_000);
    session.note_focus(false, 1_100);
    assert_eq!(session.last_focused_at(), 1_000);
    session.note_focus(true, 1_200);
    assert_eq!(session.last_focused_at(), 1_200);
    session.note_focus(false, 1_300);
    assert_eq!(session.last_focused_at(), 1_200);
    assert_eq!(session.session_start(), 1_000);
}

#[test]
fn idle_needs_more_than_the_threshold() {
    let session = ActivitySession::begin(1_000);
    assert!(!session.is_idle(1_000, 300));
    assert!(!session.is_idle(1_299, 300));
    assert!(!session.is_idle(1_300, 300));
    assert!(session.is_idle(1_301, 300));
    assert!(session.is_idle(5_000, 300));
}

#[test]
fn idle_with_zero_threshold() {
    let session = ActivitySession::begin(1_000);
    assert!(!session.is_idle(1_000, 0));
    assert!(session.is_idle(1_001, 0));
}

#[test]
fn idle_when_the_clock_ran_backwards() {
    let session = ActivitySession::begin(1_000);
    assert!(!session.is_idle(500, 300));
    assert!(session.is_idle(900, -200));
    assert!(!session.is_idle(800, -200));
}

#[test]
fn idle_at_the_ends_of_the_range() {
    let early = ActivitySession::begin(i64::MIN);
    assert!(early.is_idle(i64::MAX, i64::MAX));
    assert!(!early.is_idle(i64::MIN, 0));
    let late = ActivitySession::begin(i64::MAX);
    assert!(!late.is_idle(i64::MIN, i64::MIN));
    assert!(!late.is_idle(i64::MAX, 0));
}
