//! Crash recovery tests.
use browser_shell::crash_recovery::{ClosedTabInfo, CrashRecoveryUi, RecentlyClosedTabs, SessionRestoreDialog};
use browser_shell::types::TabId;

#[test]
fn test_recently_closed_tabs_add() {
    let mut tracker = RecentlyClosedTabs::new(5);

    let tab = ClosedTabInfo {
        id: TabId::new(),
        title: "Test Tab".to_string(),
        url: "https://example.com".to_string(),
        closed_at: 1234567890,
    };

    tracker.add(tab.clone());

    assert_eq!(tracker.count(), 1);
    assert_eq!(tracker.get_all()[0].title, "Test Tab");
}

#[test]
fn test_recently_closed_tabs_max_limit() {
    let mut tracker = RecentlyClosedTabs::new(3);

    for i in 0..5 {
        let tab = ClosedTabInfo {
            id: TabId::new(),
            title: format!("Tab {}", i),
            url: format!("https://example{}.com", i),
            closed_at: 1234567890 + i as u64,
        };
        tracker.add(tab);
    }

    assert_eq!(tracker.count(), 3);
    // Most recent should be Tab 4
    assert_eq!(tracker.get_all()[0].title, "Tab 4");
    // Oldest should be Tab 2 (Tab 0 and 1 were dropped)
    assert_eq!(tracker.get_all()[2].title, "Tab 2");
}

#[test]
fn test_recently_closed_tabs_remove() {
    let mut tracker = RecentlyClosedTabs::new(5);

    let tab_id = TabId::new();
    let tab = ClosedTabInfo {
        id: tab_id,
        title: "Test Tab".to_string(),
        url: "https://example.com".to_string(),
        closed_at: 1234567890,
    };

    tracker.add(tab);
    assert_eq!(tracker.count(), 1);

    let removed = tracker.remove(tab_id);
    assert!(removed.is_some());
    assert_eq!(tracker.count(), 0);
}

#[test]
fn test_crash_recovery_ui_default() {
    let ui = CrashRecoveryUi::default();
    assert_eq!(ui.restore_dialog, SessionRestoreDialog::Hidden);
    assert!(ui.recently_closed.is_empty());
    assert!(!ui.show_recently_closed_menu);
}

#[test]
fn test_crash_recovery_ui_show_dialog() {
    let mut ui = CrashRecoveryUi::new();
    ui.show_restore_dialog();

    assert_eq!(ui.restore_dialog, SessionRestoreDialog::Visible);
    assert!(!ui.should_restore_session());
    assert!(!ui.restore_dialog_dismissed());
}

#[test]
fn test_crash_recovery_ui_restore_chosen() {
    let mut ui = CrashRecoveryUi::new();
    ui.restore_dialog = SessionRestoreDialog::RestoreChosen;

    assert!(ui.should_restore_session());
    assert!(!ui.restore_dialog_dismissed());
}

#[test]
fn test_crash_recovery_ui_dismiss_chosen() {
    let mut ui = CrashRecoveryUi::new();
    ui.restore_dialog = SessionRestoreDialog::DismissChosen;

    assert!(!ui.should_restore_session());
    assert!(ui.restore_dialog_dismissed());
}

#[test]
fn test_crash_recovery_ui_add_closed_tab() {
    let mut ui = CrashRecoveryUi::new();

    let tab = ClosedTabInfo {
        id: TabId::new(),
        title: "Test Tab".to_string(),
        url: "https://example.com".to_string(),
        closed_at: 1234567890,
    };

    ui.add_closed_tab(tab);

    assert_eq!(ui.closed_tab_count(), 1);
}

#[test]
fn crash_recovery_choose_restore_once() {
    let mut ui = CrashRecoveryUi::new();
    assert!(!ui.choose_restore(true));
    ui.show_restore_dialog();
    assert!(ui.choose_restore(true));
    assert!(ui.should_restore_session());
    assert!(!ui.choose_restore(false));
    ui.reset_restore_dialog();
    assert_eq!(ui.restore_dialog, SessionRestoreDialog::Hidden);
}

#[test]
fn test_tab_state_creation() {
    let tab = browser_shell::chrome::TabState::new("Test Tab".to_string());
    assert_eq!(tab.title, "Test Tab");
    assert_eq!(tab.loading, false);
}

#[test]
fn test_ui_chrome_default() {
    let chrome = browser_shell::chrome::UiChrome::default();
    assert_eq!(chrome.tab_count(), 1);
}
