use oauth_capture::nav::history_rewind_script;
use oauth_capture::nav::intercept;
use oauth_capture::nav::plan_return_navigation;
use oauth_capture::nav::ReturnNavigation;
use oauth_capture::store::PendingResultStore;
use oauth_capture::OAUTH_REDIRECT_PORT;
use oauth_capture::RETURN_NAVIGATION_DELAY_MS;

#[test]
fn take_before_any_set_is_empty() {
    let mut store = PendingResultStore::new();
    assert_eq!(store.take(), None);
}

#[test]
fn set_then_take_then_take() {
    let mut store = PendingResultStore::new();
    store.set("http://127.0.0.1:39171/cb?code=1".to_string());
    assert_eq!(store.take(), Some("http://127.0.0.1:39171/cb?code=1".to_string()));
    assert_eq!(store.take(), None);
}

#[test]
fn last_write_wins() {
    let mut store = PendingResultStore::new();
    store.set("first".to_string());
    store.set("second".to_string());
    assert_eq!(store.take(), Some("second".to_string()));
    assert_eq!(store.take(), None);
}

#[test]
fn matching_navigation_is_vetoed_and_delivered() {
    let mut store = PendingResultStore::new();
    let url = "http://127.0.0.1:39171/callback?code=abc&state=xyz";
    let allow = intercept(&mut store, OAUTH_REDIRECT_PORT, "127.0.0.1", 39171, url);
    assert!(!allow);
    assert_eq!(store.take(), Some(url.to_string()));
    assert_eq!(store.take(), None);
}

#[test]
fn localhost_matches_too() {
    let mut store = PendingResultStore::new();
    let url = "http://localhost:39171/callback?code=zz";
    assert!(!intercept(&mut store, OAUTH_REDIRECT_PORT, "localhost", 39171, url));
    assert_eq!(store.take(), Some(url.to_string()));
}

#[test]
fn foreign_host_is_allowed_through() {
    let mut store = PendingResultStore::new();
    for host in ["example.com", "accounts.example.org", "localhost6", "127.0.0.2", ""] {
        let allow = intercept(&mut store, OAUTH_REDIRECT_PORT, host, 39171, "http://x/");
        assert!(allow, "host {:?} must be allowed", host);
    }
    assert_eq!(store.take(), None);
}

#[test]
fn differing_port_is_allowed_through() {
    let mut store = PendingResultStore::new();
    for port in [0u16, 80, 1420, 39172] {
        assert!(intercept(&mut store, OAUTH_REDIRECT_PORT, "127.0.0.1", port, "http://x/"));
        assert!(intercept(&mut store, OAUTH_REDIRECT_PORT, "localhost", port, "http://x/"));
    }
    assert_eq!(store.take(), None);
}

#[test]
fn allowed_navigation_leaves_slot_untouched() {
    let mut store = PendingResultStore::new();
    store.set("kept".to_string());
    assert!(intercept(&mut store, OAUTH_REDIRECT_PORT, "example.com", 39171, "http://e/"));
    assert_eq!(store.take(), Some("kept".to_string()));
}

#[test]
fn return_navigation_strategies() {
    assert!(matches!(plan_return_navigation(true, false), ReturnNavigation::HistoryRewind));
    assert!(matches!(plan_return_navigation(true, true), ReturnNavigation::HistoryRewind));
    match plan_return_navigation(false, true) {
        ReturnNavigation::Navigate(u) => assert_eq!(u, "http://localhost:1420"),
        _ => panic!("expected a direct navigation"),
    }
    match plan_return_navigation(false, false) {
        ReturnNavigation::Navigate(u) => assert_eq!(u, "https://tauri.localhost/"),
        _ => panic!("expected a direct navigation"),
    }
}

#[test]
fn rewind_script_targets_first_history_entry() {
    assert_eq!(history_rewind_script(), "window.history.go(-(window.history.length - 1))");
    assert_eq!(RETURN_NAVIGATION_DELAY_MS, 300);
}
