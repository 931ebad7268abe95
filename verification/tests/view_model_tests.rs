//! What the drawing code is told to show, and how clicks are answered.
use browser_shell::chrome::{
    ContextMenuItem, ContextMenuType, DownloadAction, DownloadDisplay, DownloadDisplayStatus, TabState,
    UiChrome,
};
use browser_shell::crash_recovery::RecentlyClosedChoice;
use browser_shell::embedded::EmbeddedWebView;
use browser_shell::devtools::{ConsoleLevel, ConsoleMessage, DevToolsPanel, HttpMethod, NetworkStatus};
use browser_shell::menu::{MenuAction, MenuBar, PanelType, UiAction};
use browser_shell::menu_layout::{MenuButton, MenuEntry};
use browser_shell::print::PrintPreview;
use browser_shell::settings::{filter_list_enabled, toggle_filter_list};
use browser_shell::tab_drag::{indicator_x, TabSpan};
use browser_shell::types::{ComponentError, DownloadId, TabId};

fn item<'a>(entries: &'a [MenuEntry], label: &str) -> &'a MenuButton {
    entries
        .iter()
        .find_map(|e| match e {
            MenuEntry::Item(i) if i.label == label => Some(i),
            _ => None,
        })
        .expect("menu entry")
}

#[test]
fn menu_titles_in_order() {
    let menus = MenuBar::new().menus();
    let titles: Vec<&str> = menus.iter().map(|m| m.title).collect();
    assert_eq!(titles, vec!["File", "Edit", "View", "History", "Bookmarks", "Tools", "Help"]);
    assert_eq!(menus[0].entries.len(), 10);
    assert_eq!(menus[6].entries.len(), 3);
}

#[test]
fn menu_items_follow_state() {
    let mut bar = MenuBar::new();
    let menus = bar.menus();
    assert!(item(&menus[0].entries, "Close Tab").enabled);
    assert!(!item(&menus[1].entries, "Undo").enabled);
    assert!(!item(&menus[3].entries, "Back").enabled);

    bar.set_tab_state(false, false);
    bar.set_edit_state(true, false);
    bar.set_navigation_state(true, true);
    let menus = bar.menus();
    assert!(!item(&menus[0].entries, "Close Tab").enabled);
    assert!(item(&menus[1].entries, "Undo").enabled);
    assert!(!item(&menus[1].entries, "Redo").enabled);
    assert!(item(&menus[3].entries, "Back").enabled);
    assert!(item(&menus[3].entries, "Forward").enabled);
}

#[test]
fn menu_items_carry_actions_and_shortcuts() {
    let menus = MenuBar::new().menus();
    let undo = item(&menus[1].entries, "Undo");
    assert_eq!(undo.shortcut, Some("Ctrl+Z"));
    assert_eq!(undo.action, MenuAction::UiAction(UiAction::Undo));
    let devtools = item(&menus[2].entries, "Developer Tools");
    assert_eq!(devtools.shortcut, Some("F12"));
    assert_eq!(devtools.action, MenuAction::TogglePanel(PanelType::DevTools));
    let settings = item(&menus[5].entries, "Settings");
    assert_eq!(settings.action, MenuAction::TogglePanel(PanelType::Settings));
    assert_eq!(item(&menus[6].entries, "Report Issue").shortcut, None);
    assert!(matches!(menus[0].entries[3], MenuEntry::Separator));
}

#[test]
fn menu_zoom_label() {
    let mut bar = MenuBar::new();
    bar.set_zoom_level(150);
    let menus = bar.menus();
    match &menus[2].entries[4] {
        MenuEntry::Label(text) => assert_eq!(text, "Zoom: 150%"),
        _ => panic!("zoom label expected"),
    }
}

#[test]
fn tab_label_marks_loading() {
    let mut tab = TabState::with_id(TabId(3), "Docs".to_string());
    assert_eq!(tab.label(), "Docs");
    tab.loading = true;
    assert_eq!(tab.label(), "⟳ Docs");
}

#[test]
fn tab_bar_items_follow_tabs() {
    let mut chrome = UiChrome::new();
    let second = chrome.add_tab("Second".to_string());
    chrome.update_loading_state(second, true).unwrap();
    let items = chrome.tab_bar_items();
    assert_eq!(items.len(), 2);
    assert_eq!(items[0].label, "New Tab");
    assert!(!items[0].active);
    assert_eq!(items[1].id, second);
    assert_eq!(items[1].label, "⟳ Second");
    assert!(items[1].active);
}

#[test]
fn menu_tab_state_follows_tab_count() {
    let mut chrome = UiChrome::new();
    chrome.sync_menu_tab_state();
    assert!(chrome.menu_bar().has_tab());
    assert!(!chrome.menu_bar().has_multiple_tabs());
    chrome.add_tab("Two".to_string());
    chrome.sync_menu_tab_state();
    assert!(chrome.menu_bar().has_multiple_tabs());
}

#[test]
fn download_status_labels_and_buttons() {
    assert_eq!(DownloadDisplayStatus::Downloading.label(), "⬇ Downloading");
    assert_eq!(DownloadDisplayStatus::Paused.label(), "⏸ Paused");
    assert_eq!(DownloadDisplayStatus::Complete.label(), "✓ Complete");
    assert_eq!(DownloadDisplayStatus::Failed("disk full".to_string()).label(), "✗ Failed: disk full");
    assert_eq!(
        DownloadDisplayStatus::Downloading.actions(),
        vec![DownloadAction::Pause, DownloadAction::Cancel]
    );
    assert_eq!(DownloadDisplayStatus::Paused.actions(), vec![DownloadAction::Resume, DownloadAction::Cancel]);
    assert_eq!(DownloadDisplayStatus::Complete.actions(), vec![DownloadAction::Open]);
    assert!(DownloadDisplayStatus::Failed("x".to_string()).actions().is_empty());
    assert_eq!(DownloadAction::Open.label(), "📂 Open");
    let d = DownloadDisplay {
        id: DownloadId(1),
        filename: "a.zip".to_string(),
        downloaded_bytes: 1,
        total_bytes: 2,
        bytes_per_second: 3,
        eta_seconds: 4,
        status: DownloadDisplayStatus::Paused,
    };
    assert_eq!(d.status.actions()[0].label(), "▶ Resume");
}

#[test]
fn context_menu_entries() {
    assert_eq!(
        ContextMenuType::Tab(TabId(1)).items(),
        vec![ContextMenuItem::CloseTab, ContextMenuItem::CloseOtherTabs, ContextMenuItem::CloseAllTabs]
    );
    assert_eq!(ContextMenuType::AddressBar.items(), vec![ContextMenuItem::Copy, ContextMenuItem::Paste]);
    assert_eq!(ContextMenuItem::CloseOtherTabs.label(), "Close Other Tabs");
}

#[test]
fn context_menu_close_tab_closes_it() {
    let mut chrome = UiChrome::new();
    let second = chrome.add_tab("Second".to_string());
    chrome.show_tab_context_menu(second);
    assert!(chrome.choose_context_menu_item(ContextMenuItem::CloseTab).is_ok());
    assert_eq!(chrome.tab_count(), 1);
    assert!(!chrome.has_active_context_menu());
    assert_eq!(chrome.recently_closed_count(), 1);
}

#[test]
fn context_menu_close_last_tab_is_refused() {
    let mut chrome = UiChrome::new();
    let only = chrome.get_tab_id(0).unwrap();
    chrome.show_tab_context_menu(only);
    let r = chrome.choose_context_menu_item(ContextMenuItem::CloseTab);
    assert_eq!(r, Err(ComponentError::InvalidState("Cannot close the last tab".to_string())));
    assert_eq!(chrome.tab_count(), 1);
    assert!(!chrome.has_active_context_menu());
}

#[test]
fn context_menu_other_entries_only_close() {
    let mut chrome = UiChrome::new();
    let second = chrome.add_tab("Second".to_string());
    chrome.show_tab_context_menu(second);
    assert!(chrome.choose_context_menu_item(ContextMenuItem::CloseAllTabs).is_ok());
    assert_eq!(chrome.tab_count(), 2);
    assert!(!chrome.has_active_context_menu());
    chrome.show_address_bar_context_menu();
    assert!(chrome.choose_context_menu_item(ContextMenuItem::Copy).is_ok());
    assert!(!chrome.has_active_context_menu());
    assert!(chrome.choose_context_menu_item(ContextMenuItem::Paste).is_ok());
    assert_eq!(chrome.tab_count(), 2);
}

#[test]
fn recently_closed_menu_choices() {
    let mut chrome = UiChrome::new();
    let a = chrome.add_tab("A".to_string());
    let b = chrome.add_tab("B".to_string());
    chrome.close_tab(a).unwrap();
    chrome.close_tab(b).unwrap();
    assert_eq!(chrome.recently_closed_count(), 2);

    // A hidden menu takes no click.
    assert!(chrome.choose_recently_closed(RecentlyClosedChoice::Restore(a)).is_none());
    assert_eq!(chrome.recently_closed_count(), 2);

    chrome.toggle_recently_closed_tabs();
    assert!(chrome.is_recently_closed_menu_visible());
    let restored = chrome.choose_recently_closed(RecentlyClosedChoice::Restore(a)).unwrap();
    assert_eq!(restored.id, a);
    assert_eq!(restored.title, "A");
    assert_eq!(chrome.recently_closed_count(), 1);
    assert!(chrome.choose_recently_closed(RecentlyClosedChoice::Restore(a)).is_none());

    assert!(chrome.choose_recently_closed(RecentlyClosedChoice::ClearAll).is_none());
    assert_eq!(chrome.recently_closed_count(), 0);
    assert!(chrome.is_recently_closed_menu_visible());

    assert!(chrome.choose_recently_closed(RecentlyClosedChoice::Close).is_none());
    assert!(!chrome.is_recently_closed_menu_visible());
}

#[test]
fn restore_dialog_visibility() {
    let mut chrome = UiChrome::new();
    assert!(!chrome.is_restore_dialog_visible());
    chrome.show_crash_recovery_dialog();
    assert!(chrome.is_restore_dialog_visible());
    assert!(chrome.choose_session_restore(true));
    assert!(!chrome.is_restore_dialog_visible());
    assert!(chrome.should_restore_session());
}

#[test]
fn address_bar_focus_and_tab_ids() {
    let mut chrome = UiChrome::new();
    chrome.set_address_bar_focused(true);
    assert!(chrome.is_address_bar_focused());
    chrome.set_address_bar_focused(false);
    assert!(!chrome.is_address_bar_focused());
    assert!(chrome.has_free_tab_id());
}

#[test]
fn network_status_detail_texts() {
    assert_eq!(NetworkStatus::Pending.detail_text(), "Pending");
    assert_eq!(NetworkStatus::Complete(404).detail_text(), "404");
    assert_eq!(NetworkStatus::Failed("timeout".to_string()).detail_text(), "Failed: timeout");
    assert_eq!(NetworkStatus::Cancelled.detail_text(), "Cancelled");
}

#[test]
fn console_message_location() {
    let m = ConsoleMessage::new(ConsoleLevel::Log, "hi");
    assert_eq!(m.location(), None);
    let m = m.with_source("app.js", 42);
    assert_eq!(m.location(), Some("app.js:42".to_string()));
}

#[test]
fn selected_network_details_respects_filter() {
    let mut panel = DevToolsPanel::default();
    let a = panel.add_network_request(HttpMethod::GET, "https://example.com/a.js");
    let b = panel.add_network_request(HttpMethod::POST, "https://api.test/b");
    assert!(panel.selected_network_details().is_none());
    panel.select_network_entry(Some(b));
    assert_eq!(panel.selected_network_details().map(|e| e.id), Some(b));
    panel.set_network_filter("example".to_string());
    assert!(panel.selected_network_details().is_none());
    panel.select_network_entry(Some(a));
    assert_eq!(panel.selected_network_details().map(|e| e.url.clone()), Some("https://example.com/a.js".to_string()));
    panel.select_network_entry(Some(999));
    assert!(panel.selected_network_details().is_none());
}

#[test]
fn devtools_log_switches() {
    let mut panel = DevToolsPanel::default();
    panel.set_preserve_log(true);
    assert!(panel.config().preserve_log);
    panel.console_log("kept");
    panel.on_navigation();
    assert_eq!(panel.console_messages().len(), 1);
    panel.set_console_auto_scroll(false);
    assert!(!panel.state().console_auto_scroll);
}

#[test]
fn drop_indicator_positions() {
    let spans = vec![
        TabSpan { tab_id: TabId(1), left: 0, right: 100 },
        TabSpan { tab_id: TabId(2), left: 100, right: 180 },
        TabSpan { tab_id: TabId(3), left: 180, right: 300 },
    ];
    assert_eq!(indicator_x(&spans, 0), Some(0));
    assert_eq!(indicator_x(&spans, 1), Some(100));
    assert_eq!(indicator_x(&spans, 2), Some(180));
    assert_eq!(indicator_x(&spans, 3), Some(300));
    assert_eq!(indicator_x(&spans, 7), Some(300));
    assert_eq!(indicator_x(&[], 0), None);
}

#[test]
fn print_preview_page_label() {
    let mut preview: PrintPreview<u8> = PrintPreview::new();
    assert_eq!(preview.page_label(), "Page 1 of 1");
    preview.set_total_pages(12);
    preview.set_current_page(7);
    assert_eq!(preview.page_label(), "Page 7 of 12");
}

#[test]
fn filter_lists_toggle() {
    assert!(filter_list_enabled("easylist", "easylist"));
    assert!(!filter_list_enabled("easylist", "fanboy"));
    assert_eq!(toggle_filter_list("easylist", "fanboy", true), "easylist,fanboy");
    assert_eq!(toggle_filter_list("easylist,fanboy", "fanboy", false), "easylist,");
    assert_eq!(toggle_filter_list("easylist,easyprivacy,fanboy", "easyprivacy", false), "easylist,fanboy");
    assert_eq!(toggle_filter_list("easylist", "easylist", false), "");
    assert_eq!(toggle_filter_list(",,a,,,b", "zzz", false), ",a,,b");
}

#[test]
fn embedded_view_status_and_zoom_steps() {
    let mut view = EmbeddedWebView::default();
    view.process_messages();
    assert_eq!(view.status_text(), "Ready");
    assert_eq!(view.zoom_percent(), 100);
    view.step_zoom(true);
    assert_eq!(view.zoom_percent(), 110);
    view.step_zoom(false);
    view.step_zoom(false);
    assert_eq!(view.zoom_percent(), 90);
    for _ in 0..60 {
        view.step_zoom(true);
    }
    assert_eq!(view.zoom_percent(), 500);
    for _ in 0..60 {
        view.step_zoom(false);
    }
    assert_eq!(view.zoom_percent(), 25);
}

#[test]
fn embedded_view_loading_text() {
    let mut view = EmbeddedWebView::default();
    view.navigate("https://example.com");
    assert!(view.state().is_loading);
    assert_eq!(view.status_text(), "Loading... 0%");
    view.process_messages();
    assert!(!view.state().is_loading);
    assert_eq!(view.status_text(), "Ready");
}
