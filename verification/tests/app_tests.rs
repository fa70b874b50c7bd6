//! The session state machine: fetch engine flags, result application,
//! profile switching, navigation, and key handling.

use aleph_tui::app::{App, CurrentView, ProfileError};
use aleph_tui::config::Config;
use aleph_tui::fetch::FetchResult;
use aleph_tui::models::{parse_status, Metadata};
use aleph_tui::update::{update, KeyInput};

fn entries(names: &[&str]) -> Vec<(String, String, String)> {
    names
        .iter()
        .enumerate()
        .map(|(i, n)| {
            (
                n.to_string(),
                format!("https://aleph-{}.example.org", i),
                format!("token-{}", i),
            )
        })
        .collect()
}

fn make_app(names: &[&str], default: &str) -> App {
    let cfg = Config::from_parts(default.to_string(), entries(names), None);
    App::new(cfg, "1.0.0".to_string(), 0).unwrap()
}

fn three_row_status() -> aleph_tui::models::Status {
    let stats = |name: &str| {
        format!(
            r#"{{"todo": 0, "doing": 0, "succeeded": 0, "failed": 0, "aborted": 0,
               "aborting": 0, "cancelled": 0, "total": 0, "active": 0, "finished": 0,
               "name": "{}"}}"#,
            name
        )
    };
    let raw = format!(
        r#"{{"results": [{}, {}, {}], "total": 3}}"#,
        stats("a"),
        stats("b"),
        stats("c"),
    );
    parse_status(&raw).unwrap()
}

#[test]
fn test_start_fetch_idempotent() {
    let mut app = make_app(&["one"], "one");
    assert!(!app.is_fetching);
    let launch = app.start_fetch();
    assert!(launch);
    assert!(app.is_fetching);
    // While a fetch is in flight a second start is a no-op: no second
    // background unit may be launched.
    let launch_again = app.start_fetch();
    assert!(!launch_again);
    assert!(app.is_fetching);
}

#[test]
fn test_poll_empty_channel_changes_nothing() {
    let mut app = make_app(&["one"], "one");
    app.start_fetch();
    app.poll_fetch_result(123);
    assert!(app.is_fetching);
    assert_eq!(app.last_fetch, 0);
    assert!(app.error_message.is_empty());
}

#[test]
fn test_apply_success_clears_error() {
    let mut app = make_app(&["one"], "one");
    app.error_message = "old failure".to_string();
    app.start_fetch();
    let status = parse_status(r#"{"results": [], "total": 0}"#).unwrap();
    let result = FetchResult { status, metadata: Metadata::default(), error: None };
    app.apply_fetch_result(result, 500);
    assert!(app.error_message.is_empty());
    assert!(!app.is_fetching);
    assert_eq!(app.last_fetch, 500);
}

#[test]
fn test_apply_failure_keeps_snapshots() {
    let mut app = make_app(&["one"], "one");
    app.status = three_row_status();
    let before_total = app.status.total;
    app.start_fetch();
    let result = FetchResult {
        status: Default::default(),
        metadata: Metadata::default(),
        error: Some("500".to_string()),
    };
    app.apply_fetch_result(result, 900);
    assert_eq!(app.error_message, "500");
    assert_eq!(app.status.total, before_total);
    assert_eq!(app.status.results.len(), 3);
    assert!(!app.is_fetching);
}

#[test]
fn test_poll_delivered_result_is_applied() {
    let mut app = make_app(&["one"], "one");
    let launch = app.start_fetch();
    assert!(launch);
    let tx = app.fetch_tx.clone();
    let status = parse_status(r#"{"results": [], "total": 0}"#).unwrap();
    tx.try_send(FetchResult { status, metadata: Metadata::default(), error: None })
        .unwrap();
    app.poll_fetch_result(777);
    assert!(!app.is_fetching);
    assert_eq!(app.last_fetch, 777);
    assert!(app.error_message.is_empty());
}

#[test]
fn test_set_profile_resets_state() {
    let mut app = make_app(&["one", "two"], "one");
    app.status = three_row_status();
    app.error_message = "stale".to_string();
    app.set_profile("two".to_string()).unwrap();
    assert_eq!(app.current_profile, 1);
    assert!(app.status.results.is_empty());
    assert_eq!(app.status.total, 0);
    assert!(app.error_message.is_empty());
}

#[test]
fn test_set_profile_unknown_name() {
    let mut app = make_app(&["one", "two"], "one");
    app.status = three_row_status();
    match app.set_profile("elsewhere".to_string()) {
        Err(e @ ProfileError::ProfileNotFound(_)) => {
            assert!(e.message().contains("elsewhere"));
        }
        Ok(()) => panic!("unknown profile names must be refused"),
    }
    // The refused switch changes nothing.
    assert_eq!(app.current_profile, 0);
    assert_eq!(app.status.results.len(), 3);
}

#[test]
fn test_profile_navigation_clears_and_clamps() {
    let mut app = make_app(&["one", "two"], "one");
    app.status = three_row_status();
    app.profile_down();
    assert_eq!(app.current_profile, 1);
    assert!(app.status.results.is_empty());
    // At the last profile, down is a no-op: the selection never wraps.
    app.profile_down();
    assert_eq!(app.current_profile, 1);
    app.profile_up();
    assert_eq!(app.current_profile, 0);
    app.profile_up();
    assert_eq!(app.current_profile, 0);
}

#[test]
fn test_row_navigation_clamps() {
    let mut app = make_app(&["one"], "one");
    app.status = three_row_status();
    assert_eq!(app.collection_cursor, 0);
    // Up at the top stays at the top.
    app.collection_up();
    assert_eq!(app.collection_cursor, 0);
    app.collection_down();
    app.collection_down();
    app.collection_down();
    assert_eq!(app.collection_cursor, 3);
    // Down at the bound (one past the last row) stays there.
    app.collection_down();
    assert_eq!(app.collection_cursor, 3);
    app.collection_up();
    assert_eq!(app.collection_cursor, 2);
}

#[test]
fn test_toggle_profile_selector() {
    let mut app = make_app(&["one"], "one");
    assert!(!app.show_profile_selector());
    app.toggle_profile_selector();
    assert!(app.show_profile_selector());
    assert_eq!(app.current_view, CurrentView::ProfileSwitcher);
    app.toggle_profile_selector();
    assert!(!app.show_profile_selector());
}

#[test]
fn test_maybe_start_fetch_policy() {
    let mut app = make_app(&["one"], "one");
    // Interval is 5 s and the stamp is 0: at 5000 ms nothing is due yet.
    assert!(!app.maybe_start_fetch(5000));
    assert!(!app.is_fetching);
    assert!(app.maybe_start_fetch(5001));
    assert!(app.is_fetching);
    // In flight: the next tick starts nothing.
    assert!(!app.maybe_start_fetch(60_000));
}

#[test]
fn test_update_quit_keys() {
    for key in [
        KeyInput::Esc,
        KeyInput::Char('q'),
        KeyInput::CtrlChar('c'),
        KeyInput::CtrlChar('C'),
    ] {
        let mut app = make_app(&["one"], "one");
        update(&mut app, key);
        assert!(app.should_quit);
    }
}

#[test]
fn test_update_toggle_and_enter() {
    let mut app = make_app(&["one"], "one");
    update(&mut app, KeyInput::Char('p'));
    assert!(app.show_profile_selector());
    update(&mut app, KeyInput::Enter);
    assert!(!app.show_profile_selector());
    // Enter in the main view does nothing.
    update(&mut app, KeyInput::Enter);
    assert!(!app.show_profile_selector());
    assert!(!app.should_quit);
}

#[test]
fn test_update_navigation_depends_on_view() {
    let mut app = make_app(&["one", "two"], "one");
    app.status = three_row_status();
    update(&mut app, KeyInput::Char('j'));
    assert_eq!(app.collection_cursor, 1);
    assert_eq!(app.current_profile, 0);
    update(&mut app, KeyInput::Up);
    assert_eq!(app.collection_cursor, 0);
    update(&mut app, KeyInput::Char('p'));
    update(&mut app, KeyInput::Down);
    assert_eq!(app.current_profile, 1);
    assert_eq!(app.collection_cursor, 0);
    update(&mut app, KeyInput::Char('k'));
    assert_eq!(app.current_profile, 0);
}

#[test]
fn test_update_ignores_other_keys() {
    let mut app = make_app(&["one"], "one");
    app.status = three_row_status();
    update(&mut app, KeyInput::Char('x'));
    update(&mut app, KeyInput::CtrlChar('q'));
    update(&mut app, KeyInput::Other);
    assert!(!app.should_quit);
    assert_eq!(app.collection_cursor, 0);
    assert!(!app.show_profile_selector());
}
