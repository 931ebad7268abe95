//! Developer tools panel tests.
use browser_shell::devtools::{
    ConsoleLevel, ConsoleMessage, DevToolsConfig, DevToolsPanel, DevToolsTab, DockPosition,
    HttpMethod, NetworkInspectorEntry, NetworkStatus,
};
use browser_shell::theme::Color32;

#[test]
fn test_devtools_tab_default() {
    let tab = DevToolsTab::default();
    assert_eq!(tab, DevToolsTab::Console);
}

#[test]
fn test_devtools_tab_label() {
    assert_eq!(DevToolsTab::Elements.label(), "Elements");
    assert_eq!(DevToolsTab::Console.label(), "Console");
    assert_eq!(DevToolsTab::Network.label(), "Network");
    assert_eq!(DevToolsTab::Sources.label(), "Sources");
    assert_eq!(DevToolsTab::Performance.label(), "Performance");
    assert_eq!(DevToolsTab::Memory.label(), "Memory");
}

#[test]
fn test_devtools_tab_all() {
    let all = DevToolsTab::all();
    assert_eq!(all.len(), 6);
    assert!(all.contains(&DevToolsTab::Elements));
    assert!(all.contains(&DevToolsTab::Console));
    assert!(all.contains(&DevToolsTab::Network));
}

#[test]
fn test_dock_position_default() {
    let pos = DockPosition::default();
    assert_eq!(pos, DockPosition::Bottom);
}

#[test]
fn test_dock_position_label() {
    assert_eq!(DockPosition::Bottom.label(), "Bottom");
    assert_eq!(DockPosition::Right.label(), "Right");
    assert_eq!(DockPosition::Detached.label(), "Detached");
}

#[test]
fn test_console_level_default() {
    let level = ConsoleLevel::default();
    assert_eq!(level, ConsoleLevel::Log);
}

#[test]
fn test_console_level_prefix() {
    assert_eq!(ConsoleLevel::Log.prefix(), "");
    assert_eq!(ConsoleLevel::Info.prefix(), "[INFO]");
    assert_eq!(ConsoleLevel::Warn.prefix(), "[WARN]");
    assert_eq!(ConsoleLevel::Error.prefix(), "[ERROR]");
    assert_eq!(ConsoleLevel::Debug.prefix(), "[DEBUG]");
}

#[test]
fn test_console_message_new() {
    let msg = ConsoleMessage::new(ConsoleLevel::Info, "test message");
    assert_eq!(msg.level, ConsoleLevel::Info);
    assert_eq!(msg.message, "test message");
    assert!(msg.source.is_none());
    assert!(msg.line.is_none());
    assert!(msg.timestamp > 0);
}

#[test]
fn test_console_message_constructors() {
    let log = ConsoleMessage::log("log");
    assert_eq!(log.level, ConsoleLevel::Log);

    let info = ConsoleMessage::info("info");
    assert_eq!(info.level, ConsoleLevel::Info);

    let warn = ConsoleMessage::warn("warn");
    assert_eq!(warn.level, ConsoleLevel::Warn);

    let error = ConsoleMessage::error("error");
    assert_eq!(error.level, ConsoleLevel::Error);

    let debug = ConsoleMessage::debug("debug");
    assert_eq!(debug.level, ConsoleLevel::Debug);
}

#[test]
fn test_console_message_with_source() {
    let msg = ConsoleMessage::log("test").with_source("main.js", 42);
    assert_eq!(msg.source, Some("main.js".to_string()));
    assert_eq!(msg.line, Some(42));
}

#[test]
fn test_http_method_default() {
    let method = HttpMethod::default();
    assert_eq!(method, HttpMethod::GET);
}

#[test]
fn test_http_method_as_str() {
    assert_eq!(HttpMethod::GET.as_str(), "GET");
    assert_eq!(HttpMethod::POST.as_str(), "POST");
    assert_eq!(HttpMethod::PUT.as_str(), "PUT");
    assert_eq!(HttpMethod::DELETE.as_str(), "DELETE");
    assert_eq!(HttpMethod::PATCH.as_str(), "PATCH");
    assert_eq!(HttpMethod::HEAD.as_str(), "HEAD");
    assert_eq!(HttpMethod::OPTIONS.as_str(), "OPTIONS");
}

#[test]
fn test_network_status_default() {
    let status = NetworkStatus::default();
    assert_eq!(status, NetworkStatus::Pending);
    assert!(status.is_pending());
}

#[test]
fn test_network_status_is_success() {
    assert!(NetworkStatus::Complete(200).is_success());
    assert!(NetworkStatus::Complete(201).is_success());
    assert!(NetworkStatus::Complete(299).is_success());
    assert!(!NetworkStatus::Complete(300).is_success());
    assert!(!NetworkStatus::Complete(404).is_success());
    assert!(!NetworkStatus::Complete(500).is_success());
    assert!(!NetworkStatus::Pending.is_success());
    assert!(!NetworkStatus::Failed("error".to_string()).is_success());
}

#[test]
fn test_network_entry_new() {
    let entry = NetworkInspectorEntry::new(1, HttpMethod::GET, "https://example.com/api");
    assert_eq!(entry.id, 1);
    assert_eq!(entry.method, HttpMethod::GET);
    assert_eq!(entry.url, "https://example.com/api");
    assert!(entry.status.is_pending());
    assert!(entry.start_time > 0);
}

#[test]
fn test_network_entry_complete() {
    let mut entry = NetworkInspectorEntry::new(1, HttpMethod::GET, "https://example.com");
    entry.complete(200, Some("application/json".to_string()));

    assert_eq!(entry.status, NetworkStatus::Complete(200));
    assert_eq!(entry.content_type, Some("application/json".to_string()));
}

#[test]
fn test_network_entry_fail() {
    let mut entry = NetworkInspectorEntry::new(1, HttpMethod::GET, "https://example.com");
    entry.fail("Connection refused".to_string());

    assert_eq!(
        entry.status,
        NetworkStatus::Failed("Connection refused".to_string())
    );
}

#[test]
fn test_network_entry_display_name() {
    let entry1 = NetworkInspectorEntry::new(1, HttpMethod::GET, "https://example.com/api/users");
    assert_eq!(entry1.display_name(), "users");

    let entry2 = NetworkInspectorEntry::new(2, HttpMethod::GET, "https://example.com/");
    assert_eq!(entry2.display_name(), "example.com");

    let entry3 = NetworkInspectorEntry::new(3, HttpMethod::GET, "https://example.com");
    assert_eq!(entry3.display_name(), "example.com");
}

#[test]
fn test_devtools_panel_new() {
    let panel = DevToolsPanel::new(DevToolsConfig::default());
    assert!(!panel.is_visible());
    assert_eq!(panel.current_tab(), DevToolsTab::Console);
    assert_eq!(panel.dock_position(), DockPosition::Bottom);
}

#[test]
fn test_devtools_panel_visibility() {
    let mut panel = DevToolsPanel::default();

    assert!(!panel.is_visible());

    panel.show_panel();
    assert!(panel.is_visible());

    panel.hide_panel();
    assert!(!panel.is_visible());

    panel.toggle();
    assert!(panel.is_visible());

    panel.toggle();
    assert!(!panel.is_visible());
}

#[test]
fn test_devtools_panel_tab_switching() {
    let mut panel = DevToolsPanel::default();

    panel.set_tab(DevToolsTab::Network);
    assert_eq!(panel.current_tab(), DevToolsTab::Network);

    panel.set_tab(DevToolsTab::Elements);
    assert_eq!(panel.current_tab(), DevToolsTab::Elements);
}

#[test]
fn test_devtools_panel_dock_position() {
    let mut panel = DevToolsPanel::default();

    panel.set_dock_position(DockPosition::Right);
    assert_eq!(panel.dock_position(), DockPosition::Right);

    panel.set_dock_position(DockPosition::Detached);
    assert_eq!(panel.dock_position(), DockPosition::Detached);
}

#[test]
fn test_devtools_console_messages() {
    let mut panel = DevToolsPanel::default();

    panel.console_log("log message");
    panel.console_info("info message");
    panel.console_warn("warn message");
    panel.console_error("error message");
    panel.console_debug("debug message");

    assert_eq!(panel.console_messages().len(), 5);
    assert_eq!(panel.console_messages()[0].level, ConsoleLevel::Log);
    assert_eq!(panel.console_messages()[1].level, ConsoleLevel::Info);
    assert_eq!(panel.console_messages()[2].level, ConsoleLevel::Warn);
    assert_eq!(panel.console_messages()[3].level, ConsoleLevel::Error);
    assert_eq!(panel.console_messages()[4].level, ConsoleLevel::Debug);
}

#[test]
fn test_devtools_console_clear() {
    let mut panel = DevToolsPanel::default();

    panel.console_log("test");
    panel.console_log("test2");
    assert_eq!(panel.console_messages().len(), 2);

    panel.clear_console();
    assert_eq!(panel.console_messages().len(), 0);
}

#[test]
fn test_devtools_console_filter() {
    let mut panel = DevToolsPanel::default();

    panel.console_log("hello world");
    panel.console_log("foo bar");
    panel.console_error("hello error");

    panel.set_console_filter("hello".to_string());
    let filtered = panel.filtered_console_messages();
    assert_eq!(filtered.len(), 2);
}

#[test]
fn test_devtools_console_message_limit() {
    let mut config = DevToolsConfig::default();
    config.max_console_messages = 5;
    let mut panel = DevToolsPanel::new(config);

    for i in 0..10 {
        panel.console_log(&format!("message {}", i));
    }

    assert_eq!(panel.console_messages().len(), 5);
    // Should have messages 5-9 (oldest trimmed)
    assert!(panel.console_messages()[0].message.contains("5"));
}

#[test]
fn test_devtools_network_request() {
    let mut panel = DevToolsPanel::default();

    let id = panel.add_network_request(HttpMethod::GET, "https://example.com/api");
    assert_eq!(id, 1);
    assert_eq!(panel.network_entries().len(), 1);

    let entry = &panel.network_entries()[0];
    assert_eq!(entry.method, HttpMethod::GET);
    assert!(entry.status.is_pending());
}

#[test]
fn test_devtools_network_complete() {
    let mut panel = DevToolsPanel::default();

    let id = panel.add_network_request(HttpMethod::POST, "https://example.com/users");
    panel.complete_network_request(id, 201, Some("application/json".to_string()));

    let entry = &panel.network_entries()[0];
    assert_eq!(entry.status, NetworkStatus::Complete(201));
    assert_eq!(entry.content_type, Some("application/json".to_string()));
}

#[test]
fn test_devtools_network_fail() {
    let mut panel = DevToolsPanel::default();

    let id = panel.add_network_request(HttpMethod::GET, "https://example.com");
    panel.fail_network_request(id, "Network error".to_string());

    let entry = &panel.network_entries()[0];
    assert_eq!(
        entry.status,
        NetworkStatus::Failed("Network error".to_string())
    );
}

#[test]
fn test_devtools_network_clear() {
    let mut panel = DevToolsPanel::default();

    panel.add_network_request(HttpMethod::GET, "https://example.com");
    panel.add_network_request(HttpMethod::POST, "https://example.com/api");
    assert_eq!(panel.network_entries().len(), 2);

    panel.clear_network();
    assert_eq!(panel.network_entries().len(), 0);
}

#[test]
fn test_devtools_network_filter() {
    let mut panel = DevToolsPanel::default();

    panel.add_network_request(HttpMethod::GET, "https://api.example.com/users");
    panel.add_network_request(HttpMethod::GET, "https://cdn.example.com/image.png");
    panel.add_network_request(HttpMethod::POST, "https://api.example.com/login");

    panel.set_network_filter("api".to_string());
    let filtered = panel.filtered_network_entries();
    assert_eq!(filtered.len(), 2);
}

#[test]
fn test_devtools_network_entry_limit() {
    let mut config = DevToolsConfig::default();
    config.max_network_entries = 3;
    let mut panel = DevToolsPanel::new(config);

    for i in 0..5 {
        panel.add_network_request(HttpMethod::GET, &format!("https://example.com/{}", i));
    }

    assert_eq!(panel.network_entries().len(), 3);
    // Should have entries 2-4 (oldest trimmed)
    assert!(panel.network_entries()[0].url.contains("/2"));
}

#[test]
fn test_devtools_on_navigation_clears() {
    let mut panel = DevToolsPanel::default();

    panel.console_log("test");
    panel.add_network_request(HttpMethod::GET, "https://example.com");

    panel.on_navigation();

    assert_eq!(panel.console_messages().len(), 0);
    assert_eq!(panel.network_entries().len(), 0);
}

#[test]
fn test_devtools_on_navigation_preserves_when_enabled() {
    let mut config = DevToolsConfig::default();
    config.preserve_log = true;
    let mut panel = DevToolsPanel::new(config);

    panel.console_log("test");
    panel.add_network_request(HttpMethod::GET, "https://example.com");

    panel.on_navigation();

    assert_eq!(panel.console_messages().len(), 1);
    assert_eq!(panel.network_entries().len(), 1);
}

#[test]
fn test_devtools_network_selection() {
    let mut panel = DevToolsPanel::default();

    let id1 = panel.add_network_request(HttpMethod::GET, "https://example.com/1");
    let _id2 = panel.add_network_request(HttpMethod::GET, "https://example.com/2");

    assert!(panel.state().selected_network_entry.is_none());

    panel.select_network_entry(Some(id1));
    assert_eq!(panel.state().selected_network_entry, Some(id1));

    panel.select_network_entry(None);
    assert!(panel.state().selected_network_entry.is_none());
}

#[test]
fn test_console_level_colors_are_different() {
    let colors: Vec<_> = [
        ConsoleLevel::Log,
        ConsoleLevel::Info,
        ConsoleLevel::Warn,
        ConsoleLevel::Error,
    ]
    .iter()
    .map(|l| l.color())
    .collect();

    assert_ne!(colors[1], colors[2]);
    assert_ne!(colors[2], colors[3]);
}

#[test]
fn network_colors_by_status_class() {
    assert_eq!(NetworkStatus::Complete(204).color(), Color32::from_rgb(100, 200, 100));
    assert_eq!(NetworkStatus::Complete(301).color(), Color32::from_rgb(100, 180, 255));
    assert_eq!(NetworkStatus::Complete(404).color(), Color32::from_rgb(255, 100, 100));
    assert_eq!(NetworkStatus::Pending.color(), Color32::from_rgb(255, 200, 100));
    assert_eq!(NetworkStatus::Cancelled.color(), Color32::from_rgb(180, 180, 180));
    assert_eq!(HttpMethod::PATCH.color(), Color32::from_rgb(200, 150, 255));
}
