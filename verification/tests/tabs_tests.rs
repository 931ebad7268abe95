//! Tab manager, tab history, navigation, session and process settings
//! tests.
use browser_shell::navigation::NavigationHistory;
use browser_shell::process::{
    recycle_due, ProcessIsolationError, ProcessStatus, ResourceLimits, SandboxConfig, TabMessage,
    DEFAULT_RECYCLE_THRESHOLD,
};
use browser_shell::session::{
    FormData, SessionConfig, SessionManager, SessionState, TabSessionState, WindowState,
    DEFAULT_AUTO_SAVE_INTERVAL_SECS, SESSION_FORMAT_VERSION,
};
use browser_shell::tabs::{PrivateSessionData, TabHistory, TabManager};
use browser_shell::types::{SessionError, TabError, TabId, WindowId};
use std::sync::atomic::{AtomicU32, Ordering};

#[test]
fn test_new_history_has_no_navigation() {
    let history = NavigationHistory::new();
    assert!(!history.can_go_back());
    assert!(!history.can_go_forward());
    assert!(history.current_url().is_none());
}

#[test]
fn test_navigate_sets_current_url() {
    let mut history = NavigationHistory::new();
    history.navigate("https://example.com".to_string());

    assert_eq!(history.current_url().map(|u| u.as_str()), Some("https://example.com"));
    assert!(!history.can_go_back());
    assert!(!history.can_go_forward());
}

#[test]
fn test_second_navigate_enables_back() {
    let mut history = NavigationHistory::new();
    history.navigate("https://example.com".to_string());
    history.navigate("https://example.com/page2".to_string());

    assert!(history.can_go_back());
    assert!(!history.can_go_forward());
    assert_eq!(history.current_url().map(|u| u.as_str()), Some("https://example.com/page2"));
}

#[test]
fn test_go_back_returns_previous_url() {
    let mut history = NavigationHistory::new();
    history.navigate("https://example.com".to_string());
    history.navigate("https://example.com/page2".to_string());

    let back_url = history.go_back().unwrap();
    assert_eq!(back_url.as_str(), "https://example.com");
    assert_eq!(history.current_url().map(|u| u.as_str()), Some("https://example.com"));
}

#[test]
fn test_go_back_enables_forward() {
    let mut history = NavigationHistory::new();
    history.navigate("https://example.com".to_string());
    history.navigate("https://example.com/page2".to_string());
    history.go_back();

    assert!(history.can_go_forward());
}

#[test]
fn test_navigate_clears_forward_stack() {
    let mut history = NavigationHistory::new();
    history.navigate("https://example.com".to_string());
    history.navigate("https://example.com/page2".to_string());
    history.go_back();

    assert!(history.can_go_forward());

    history.navigate("https://example.com/page3".to_string());

    assert!(!history.can_go_forward());
}

#[test]
fn navigation_back_then_forward_returns() {
    let mut history = NavigationHistory::new();
    history.navigate("a".to_string());
    history.navigate("b".to_string());
    history.navigate("c".to_string());
    assert_eq!(history.go_back(), Some("b".to_string()));
    assert_eq!(history.go_forward(), Some("c".to_string()));
    assert_eq!(history.go_forward(), None);
    assert_eq!(history.current_url().map(|u| u.as_str()), Some("c"));
}

#[test]
fn test_navigation_history_basic() {
    let mut history = TabHistory::new();

    assert_eq!(history.can_go_back(), false);
    assert_eq!(history.can_go_forward(), false);

    history.push("https://example.com/".to_string(), "Example".to_string());

    assert_eq!(history.can_go_back(), false);
    assert_eq!(history.can_go_forward(), false);

    history.push("https://example.org/".to_string(), "Example Org".to_string());

    assert_eq!(history.can_go_back(), true);
    assert_eq!(history.can_go_forward(), false);
}

#[test]
fn test_navigation_history_back_forward() {
    let mut history = TabHistory::new();

    history.push("https://example.com/".to_string(), "Example".to_string());
    history.push("https://example.org/".to_string(), "Example Org".to_string());

    let entry = history.go_back().unwrap();
    assert_eq!(entry.url, "https://example.com/");

    assert_eq!(history.can_go_back(), false);
    assert_eq!(history.can_go_forward(), true);

    let entry = history.go_forward().unwrap();
    assert_eq!(entry.url, "https://example.org/");

    assert_eq!(history.can_go_back(), true);
    assert_eq!(history.can_go_forward(), false);
}

#[test]
fn test_navigation_history_truncate_on_navigate() {
    let mut history = TabHistory::new();

    history.push("https://example.com/".to_string(), "1".to_string());
    history.push("https://example.org/".to_string(), "2".to_string());

    history.go_back();
    assert_eq!(history.can_go_forward(), true);

    history.push("https://example.net/".to_string(), "3".to_string());

    assert_eq!(history.can_go_forward(), false);
    assert_eq!(history.can_go_back(), true);

    let entry = history.go_back().unwrap();
    assert_eq!(entry.url, "https://example.com/");
}

#[test]
fn test_private_session_data_clear() {
    let mut session = PrivateSessionData::new();
    session.cookies.insert("key".to_string(), "value".to_string());
    session.cache.insert("key".to_string(), vec![1, 2, 3]);
    session.form_data.insert("field".to_string(), "data".to_string());

    assert!(!session.cookies.is_empty());
    assert!(!session.cache.is_empty());
    assert!(!session.form_data.is_empty());

    session.clear();

    assert!(session.cookies.is_empty());
    assert!(session.cache.is_empty());
    assert!(session.form_data.is_empty());
}

#[test]
fn tab_manager_create_and_close() {
    let mut manager = TabManager::new();
    let window = WindowId::new();
    let id = manager.create_tab(window, Some("https://example.com".to_string())).unwrap();
    assert_eq!(manager.tab_count(), 1);
    let info = manager.get_tab_info(id).unwrap();
    assert_eq!(info.url, Some("https://example.com/".to_string()));
    assert_eq!(info.window_id, window);
    assert!(!info.can_go_back && !info.can_go_forward && !info.is_private);
    assert!(manager.close_tab(id).is_ok());
    assert_eq!(manager.tab_count(), 0);
    assert_eq!(manager.close_tab(id), Err(TabError::NotFound(id)));
}

#[test]
fn tab_manager_rejects_invalid_url() {
    let mut manager = TabManager::new();
    match manager.create_tab(WindowId::new(), Some("not a url".to_string())) {
        Err(TabError::CreationFailed(m)) => assert!(m.starts_with("Invalid URL: ")),
        other => panic!("unexpected {:?}", other),
    }
    assert_eq!(manager.tab_count(), 0);
}

#[test]
fn tab_manager_navigation_and_history() {
    let mut manager = TabManager::new();
    let id = manager.create_tab(WindowId::new(), None).unwrap();
    assert!(manager.get_tab_info(id).unwrap().url.is_none());
    manager.navigate(id, "https://a.example/".to_string()).unwrap();
    manager.navigate(id, "https://b.example/".to_string()).unwrap();
    let info = manager.get_tab_info(id).unwrap();
    assert!(info.can_go_back && !info.can_go_forward);
    manager.go_back(id).unwrap();
    let info = manager.get_tab_info(id).unwrap();
    assert_eq!(info.url, Some("https://a.example/".to_string()));
    assert!(!info.can_go_back && info.can_go_forward);
    assert_eq!(
        manager.go_back(id),
        Err(TabError::NavigationFailed("No back history".to_string()))
    );
    manager.go_forward(id).unwrap();
    assert_eq!(manager.get_tab_info(id).unwrap().url, Some("https://b.example/".to_string()));
    assert_eq!(
        manager.go_forward(id),
        Err(TabError::NavigationFailed("No forward history".to_string()))
    );
    match manager.navigate(id, "::".to_string()) {
        Err(TabError::NavigationFailed(m)) => assert!(m.starts_with("Invalid URL: ")),
        other => panic!("unexpected {:?}", other),
    }
    let other = TabId::new();
    assert_eq!(manager.reload(other, false), Err(TabError::NotFound(other)));
    assert!(manager.stop(id).is_ok());
    assert!(!manager.get_tab_info(id).unwrap().loading);
}

#[test]
fn tab_manager_private_tabs() {
    let mut manager = TabManager::new();
    let window = WindowId::new();
    let normal = manager.create_tab(window, None).unwrap();
    let private = manager.create_private_tab(window, Some("https://example.com".to_string())).unwrap();
    assert!(manager.is_private(private));
    assert!(!manager.is_private(normal));
    assert!(!manager.is_private(TabId::new()));
    assert_eq!(manager.private_tab_count(), 1);
    assert_eq!(manager.get_private_tab_ids(), vec![private]);
    assert!(manager.get_private_session(private).unwrap().cookies.is_empty());
    assert!(manager.get_private_session(normal).is_none());
    manager.clear_all_private_data();
    assert!(manager.get_private_session(private).is_some());
    manager.close_tab(private).unwrap();
    assert_eq!(manager.private_tab_count(), 0);
    assert!(manager.get_private_session(private).is_none());
}

#[test]
fn test_sandbox_config_default() {
    let config = SandboxConfig::default();

    assert!(config.filesystem_sandbox);
    assert!(!config.network_sandbox);
    assert!(config.gpu_isolation);
    assert!(!config.strict_mode);
    assert_eq!(config.memory_limit_bytes, 512 * 1024 * 1024);
}

#[test]
fn test_sandbox_config_strict() {
    let config = SandboxConfig::strict();

    assert!(config.filesystem_sandbox);
    assert!(config.network_sandbox);
    assert!(config.gpu_isolation);
    assert!(config.strict_mode);
    assert_eq!(config.memory_limit_bytes, 256 * 1024 * 1024);
}

#[test]
fn test_sandbox_config_permissive() {
    let config = SandboxConfig::permissive();

    assert!(!config.filesystem_sandbox);
    assert!(!config.network_sandbox);
    assert!(!config.gpu_isolation);
    assert!(!config.strict_mode);
    assert_eq!(config.memory_limit_bytes, 0);
}

#[test]
fn test_sandbox_config_builder() {
    let config = SandboxConfig::default()
        .allow_host("example.com".to_string())
        .allow_host("api.example.com".to_string())
        .with_memory_limit(1024 * 1024 * 1024)
        .with_cpu_limit(60000);

    assert_eq!(config.allowed_hosts.len(), 2);
    assert!(config.allowed_hosts.contains(&"example.com".to_string()));
    assert_eq!(config.memory_limit_bytes, 1024 * 1024 * 1024);
    assert_eq!(config.cpu_time_limit_ms, 60000);
}

#[test]
fn test_resource_limits_default() {
    let limits = ResourceLimits::default();

    assert_eq!(limits.max_memory_bytes, 512 * 1024 * 1024);
    assert_eq!(limits.max_cpu_percent, 80);
    assert_eq!(limits.max_file_descriptors, 256);
    assert_eq!(limits.max_threads, 16);
}

#[test]
fn test_process_status() {
    assert_ne!(ProcessStatus::Running, ProcessStatus::Crashed);
    assert_ne!(ProcessStatus::Starting, ProcessStatus::Terminated);
}

#[test]
fn test_tab_process_should_recycle() {
    let count = AtomicU32::new(99);
    assert!(!count.load(Ordering::SeqCst) >= 100);

    count.fetch_add(1, Ordering::SeqCst);
    assert!(count.load(Ordering::SeqCst) >= 100);
}

#[test]
fn recycle_due_at_threshold() {
    assert!(!recycle_due(99, DEFAULT_RECYCLE_THRESHOLD));
    assert!(recycle_due(100, DEFAULT_RECYCLE_THRESHOLD));
    assert!(recycle_due(0, 0));
}

#[test]
fn test_ipc_channel_id() {
    assert_eq!(DEFAULT_RECYCLE_THRESHOLD, 100);
}

#[test]
fn test_tab_message_variants() {
    let _ = TabMessage::Navigate {
        url: "test".to_string(),
    };
    let _ = TabMessage::ExecuteScript {
        script: "test".to_string(),
    };
    let _ = TabMessage::GetContent;
    let _ = TabMessage::GetTitle;
    let _ = TabMessage::Stop;
    let _ = TabMessage::Reload { ignore_cache: true };
    let _ = TabMessage::GoBack;
    let _ = TabMessage::GoForward;
    let _ = TabMessage::Ping;
    let _ = TabMessage::Shutdown;
    let _ = TabMessage::ContentResponse {
        content: "test".to_string(),
    };
    let _ = TabMessage::TitleResponse {
        title: "test".to_string(),
    };
    let _ = TabMessage::NavigationComplete {
        url: "test".to_string(),
        success: true,
    };
    let _ = TabMessage::Error {
        message: "test".to_string(),
    };
    let _ = TabMessage::Pong;
    let _ = TabMessage::Ready;
    let _ = ProcessIsolationError::ProcessNotFound(TabId::new());
}

#[test]
fn test_tab_session_state_new() {
    let tab_id = TabId::new();
    let tab = TabSessionState::new(tab_id);

    assert_eq!(tab.tab_id, tab_id);
    assert!(tab.url.is_none());
    assert!(tab.title.is_empty());
    assert_eq!(tab.scroll_position, (0, 0));
    assert!(tab.form_data.is_none());
    assert!(tab.history.is_empty());
    assert!(!tab.pinned);
    assert!(!tab.muted);
}

#[test]
fn test_window_state_new() {
    let window_id = WindowId::new();
    let window = WindowState::new(window_id);

    assert_eq!(window.window_id, window_id);
    assert!(window.tabs.is_empty());
    assert_eq!(window.active_tab_index, 0);
    assert!(window.bounds.is_none());
    assert!(!window.maximized);
    assert!(!window.minimized);
}

#[test]
fn test_session_config_default() {
    let config = SessionConfig::default();
    assert_eq!(config.auto_save_interval_secs, DEFAULT_AUTO_SAVE_INTERVAL_SECS);
    assert!(config.auto_save_enabled);
    assert_eq!(config.max_session_history, 5);
}

#[test]
fn test_session_state_get_window() {
    let mut session = SessionState::new();
    let window_id = WindowId::new();
    let window = WindowState::new(window_id);

    session.add_window(window);

    assert!(session.get_window(window_id).is_some());

    let fake_id = WindowId::new();
    assert!(session.get_window(fake_id).is_none());
}

#[test]
fn test_form_data_default() {
    let form_data = FormData::default();
    assert!(form_data.fields.is_empty());
}

#[test]
fn test_session_state_new() {
    let session = SessionState::new();
    assert!(session.windows.is_empty());
    assert_eq!(session.version, SESSION_FORMAT_VERSION);
    assert!(session.is_empty());
}

#[test]
fn test_session_state_tab_count() {
    let mut session = SessionState::new();
    let mut window = WindowState::new(WindowId::new());
    let mut tab1 = TabSessionState::new(TabId::new());
    tab1.url = Some("https://example.com".to_string());
    let tab2 = TabSessionState::new(TabId::new());
    window.tabs.push(tab1);
    window.tabs.push(tab2);
    session.add_window(window);
    session.focused_window_index = Some(0);
    assert_eq!(session.tab_count(), 2);
    assert_eq!(session.window_count(), 1);
    assert!(!session.is_empty());
}

#[test]
fn session_manager_paths_and_auto_save() {
    let manager = SessionManager::new(SessionConfig::with_session_dir("/tmp/s".to_string()));
    assert_eq!(manager.session_file_path(), "/tmp/s/session.json");
    assert_eq!(manager.lock_file_path(), "/tmp/s/session.lock");
    let handle = manager.start_auto_save().unwrap();
    assert_eq!(handle.interval_secs(), DEFAULT_AUTO_SAVE_INTERVAL_SECS);
    assert_eq!(handle.session_path(), "/tmp/s/session.json");
    let slash = SessionManager::new(SessionConfig::with_session_dir("dir/".to_string()));
    assert_eq!(slash.session_file_path(), "dir/session.json");
    let mut off = SessionConfig::with_session_dir("d".to_string());
    off.auto_save_enabled = false;
    assert!(SessionManager::new(off).start_auto_save().is_none());
}

#[test]
fn session_manager_refuses_newer_format() {
    let mut manager = SessionManager::new(SessionConfig::default());
    let mut newer = SessionState::new();
    newer.version = 3;
    assert_eq!(
        manager.accept_restored(newer),
        Err(SessionError::Corrupted(
            "Session version 3 is newer than supported version 1".to_string()
        ))
    );
    let mut ok = SessionState::new();
    ok.add_window(WindowState::new(WindowId::new()));
    assert!(manager.accept_restored(ok).is_ok());
    assert_eq!(manager.current_session().window_count(), 1);
}

#[test]
fn session_get_window_mut_changes_that_window() {
    let mut session = SessionState::new();
    let a = WindowId(1);
    let b = WindowId(2);
    session.add_window(WindowState::new(a));
    session.add_window(WindowState::new(b));
    {
        let w = session.get_window_mut(b).unwrap();
        w.maximized = true;
        w.tabs.push(TabSessionState::new(TabId(9)));
    }
    assert!(session.get_window(b).unwrap().maximized);
    assert!(!session.get_window(a).unwrap().maximized);
    assert_eq!(session.tab_count(), 1);
    assert!(session.get_window_mut(WindowId(3)).is_none());
}

#[test]
fn tab_manager_private_session_written_in_place() {
    let mut manager = TabManager::new();
    let window = WindowId::new();
    let normal = manager.create_tab(window, None).unwrap();
    let private = manager.create_private_tab(window, None).unwrap();
    assert!(manager.get_private_session_mut(normal).is_none());
    assert!(manager.get_private_session_mut(TabId::new()).is_none());
    {
        let data = manager.get_private_session_mut(private).unwrap();
        data.cookies.insert("sid".to_string(), "abc".to_string());
        data.form_data.insert("q".to_string(), "rust".to_string());
    }
    let data = manager.get_private_session(private).unwrap();
    assert_eq!(data.cookies.get("sid"), Some(&"abc".to_string()));
    assert_eq!(data.form_data.len(), 1);
    manager.clear_all_private_data();
    assert!(manager.get_private_session(private).unwrap().cookies.is_empty());
}
