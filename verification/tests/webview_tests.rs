//! Web view manager, bridge, embedded view and builder tests.
use browser_shell::embedded::{
    BridgeMessage, EmbeddedWebView, EmbeddedWebViewState, WebViewBridge, WebViewBuilder,
    WebViewEvent, WindowHandle,
};
use browser_shell::webview::{
    EmbedConfig, LoadState, NavigationEvent, WebViewBounds, WebViewError, WebViewManager,
};

#[test]
fn test_create_webview() {
    let mut manager = WebViewManager::new();
    let id = manager.create_webview();
    assert!(id > 0);

    let state = manager.get_state(id).unwrap();
    assert_eq!(state.current_url, "about:blank");
    assert_eq!(state.load_state, LoadState::Idle);
}

#[test]
fn test_destroy_webview() {
    let mut manager = WebViewManager::new();
    let id = manager.create_webview();

    manager.destroy_webview(id).unwrap();

    let result = manager.get_state(id);
    assert!(result.is_err());
}

#[test]
fn test_navigate() {
    let mut manager = WebViewManager::new();
    let id = manager.create_webview();

    manager.navigate(id, "https://example.com".to_string()).unwrap();

    let state = manager.get_state(id).unwrap();
    assert_eq!(state.current_url, "https://example.com");
    assert_eq!(state.load_state, LoadState::Complete);
}

#[test]
fn test_navigate_invalid_url() {
    let mut manager = WebViewManager::new();
    let id = manager.create_webview();

    let result = manager.navigate(id, "not a valid url".to_string());
    assert!(matches!(result, Err(WebViewError::InvalidUrl(_))));
}

#[test]
fn test_history_navigation() {
    let mut manager = WebViewManager::new();
    let id = manager.create_webview();

    manager.navigate(id, "https://example.com".to_string()).unwrap();
    manager.navigate(id, "https://rust-lang.org".to_string()).unwrap();

    let state = manager.get_state(id).unwrap();
    assert!(state.can_go_back);
    assert!(!state.can_go_forward);

    manager.go_back(id).unwrap();
    let state = manager.get_state(id).unwrap();
    assert_eq!(state.current_url, "https://example.com");
    assert!(state.can_go_forward);

    manager.go_forward(id).unwrap();
    let state = manager.get_state(id).unwrap();
    assert_eq!(state.current_url, "https://rust-lang.org");
}

#[test]
fn test_reload() {
    let mut manager = WebViewManager::new();
    let id = manager.create_webview();

    manager.navigate(id, "https://example.com".to_string()).unwrap();

    manager.reload(id).unwrap();

    let state = manager.get_state(id).unwrap();
    assert_eq!(state.current_url, "https://example.com");
}

#[test]
fn lib_test_stop_loading() {
    let mut manager = WebViewManager::new();
    let id = manager.create_webview();
    manager.navigate(id, "https://example.com".to_string()).unwrap();
    assert_eq!(manager.get_state(id).unwrap().load_state, LoadState::Complete);

    manager.stop_loading(id).unwrap();

    let state = manager.get_state(id).unwrap();
    assert!(!state.is_loading);
    assert_eq!(state.load_state, LoadState::Idle);
}

#[test]
fn test_execute_js() {
    let mut manager = WebViewManager::new();
    let id = manager.create_webview();

    let result = manager.execute_js(id, "console.log('test')".to_string()).unwrap();

    assert!(result.contains("console.log"));
}

#[test]
fn test_execute_js_disabled() {
    let mut manager = WebViewManager::new();
    let id = manager.create_webview();

    let mut config = manager.get_config();
    config.javascript_enabled = false;
    manager.set_config(config);

    let result = manager.execute_js(id, "console.log('test')".to_string());

    assert!(matches!(result, Err(WebViewError::JsError(_))));
}

#[test]
fn test_set_title() {
    let mut manager = WebViewManager::new();
    let id = manager.create_webview();

    manager.set_title(id, "Custom Title".to_string()).unwrap();

    let state = manager.get_state(id).unwrap();
    assert_eq!(state.title, "Custom Title");
}

#[test]
fn test_zoom_level() {
    let mut manager = WebViewManager::new();
    let id = manager.create_webview();

    manager.set_zoom(id, 150).unwrap();
    let zoom = manager.get_zoom(id).unwrap();
    assert_eq!(zoom, 150);
}

#[test]
fn test_zoom_level_bounds() {
    let mut manager = WebViewManager::new();
    let id = manager.create_webview();

    let result = manager.set_zoom(id, 1000);
    assert!(result.is_err());

    let result = manager.set_zoom(id, 10);
    assert!(result.is_err());
}

#[test]
fn test_cache_resource() {
    let mut manager = WebViewManager::new();

    manager.cache_resource(
        "https://example.com/image.png".to_string(),
        vec![1, 2, 3, 4, 5],
        "image/png".to_string(),
    );

    let cached = manager.get_cached_resource("https://example.com/image.png");

    assert!(cached.is_some());
    let (data, mime) = cached.unwrap();
    assert_eq!(data, vec![1, 2, 3, 4, 5]);
    assert_eq!(mime, "image/png");
}

#[test]
fn test_clear_cache() {
    let mut manager = WebViewManager::new();

    manager.cache_resource(
        "https://example.com/data".to_string(),
        vec![1, 2, 3],
        "application/octet-stream".to_string(),
    );

    manager.clear_cache();

    let cached = manager.get_cached_resource("https://example.com/data");

    assert!(cached.is_none());
}

#[test]
fn test_navigation_events() {
    let mut manager = WebViewManager::new();
    let id = manager.create_webview();

    manager.navigate(id, "https://example.com".to_string()).unwrap();

    let events = manager.get_navigation_events();
    assert!(events.len() >= 2);

    manager.clear_navigation_events();
    let events = manager.get_navigation_events();
    assert!(events.is_empty());
}

#[test]
fn test_get_active_views() {
    let mut manager = WebViewManager::new();

    let id1 = manager.create_webview();
    let id2 = manager.create_webview();

    let active = manager.get_active_views();
    assert!(active.contains(&id1));
    assert!(active.contains(&id2));
    assert_eq!(active.len(), 2);
}

#[test]
fn test_embedded_webview_creation() {
    let config = EmbedConfig {
        initial_url: "https://example.com".to_string(),
        devtools_enabled: true,
        ..Default::default()
    };
    let webview = EmbeddedWebView::new(config);

    assert_eq!(webview.state().url, "https://example.com");
    assert!(!webview.state().is_loading);
    assert!(!webview.state().can_go_back);
    assert!(!webview.state().can_go_forward);
    assert!(webview.devtools_enabled());
}

#[test]
fn test_embedded_webview_navigate() {
    let mut webview = EmbeddedWebView::default();

    webview.navigate("https://rust-lang.org");

    assert_eq!(webview.state().url, "https://rust-lang.org");
    assert!(webview.state().is_loading);
}

#[test]
fn test_embedded_webview_history() {
    let mut webview = EmbeddedWebView::default();

    assert!(!webview.state().can_go_back);
    assert!(!webview.state().can_go_forward);

    webview.navigate("https://example.com");
    webview.process_messages();
    assert!(webview.state().can_go_back);
    assert!(!webview.state().can_go_forward);

    webview.navigate("https://rust-lang.org");
    webview.process_messages();
    assert!(webview.state().can_go_back);
    assert!(!webview.state().can_go_forward);

    assert!(webview.go_back());
    assert_eq!(webview.state().url, "https://example.com");
    assert!(webview.state().can_go_forward);
    assert!(webview.state().can_go_back);

    assert!(webview.go_back());
    assert_eq!(webview.state().url, "about:blank");
    assert!(webview.state().can_go_forward);
    assert!(!webview.state().can_go_back);

    assert!(webview.go_forward());
    assert_eq!(webview.state().url, "https://example.com");
    assert!(webview.go_forward());
    assert_eq!(webview.state().url, "https://rust-lang.org");
    assert!(!webview.state().can_go_forward);
}

#[test]
fn test_embedded_webview_cant_go_back_at_start() {
    let mut webview = EmbeddedWebView::default();
    assert!(!webview.go_back());
}

#[test]
fn test_embedded_webview_cant_go_forward_at_end() {
    let mut webview = EmbeddedWebView::default();
    webview.navigate("https://example.com");
    assert!(!webview.go_forward());
}

#[test]
fn test_embedded_webview_zoom() {
    let mut webview = EmbeddedWebView::default();

    webview.set_zoom(150);
    assert_eq!(webview.zoom_percent(), 150);

    webview.set_zoom(1000);
    assert_eq!(webview.zoom_percent(), 500);

    webview.set_zoom(10);
    assert_eq!(webview.zoom_percent(), 25);
}

#[test]
fn test_embedded_webview_devtools() {
    let config = EmbedConfig {
        devtools_enabled: true,
        ..Default::default()
    };
    let mut webview = EmbeddedWebView::new(config);

    assert!(!webview.devtools_open());

    webview.open_devtools();
    assert!(webview.devtools_open());

    webview.close_devtools();
    assert!(!webview.devtools_open());

    webview.toggle_devtools();
    assert!(webview.devtools_open());

    webview.toggle_devtools();
    assert!(!webview.devtools_open());
}

#[test]
fn test_embedded_webview_focus() {
    let mut webview = EmbeddedWebView::default();

    assert!(!webview.has_focus());

    webview.focus();
    assert!(webview.has_focus());

    webview.blur();
    assert!(!webview.has_focus());
}

#[test]
fn test_embedded_webview_bounds() {
    let mut webview = EmbeddedWebView::default();

    let bounds = WebViewBounds {
        x: 100,
        y: 200,
        width: 1024,
        height: 768,
    };
    webview.set_bounds(bounds);

    assert_eq!(webview.bounds().x, 100);
    assert_eq!(webview.bounds().y, 200);
    assert_eq!(webview.bounds().width, 1024);
    assert_eq!(webview.bounds().height, 768);
}

#[test]
fn test_embedded_webview_reload_stop() {
    let mut webview = EmbeddedWebView::default();
    webview.navigate("https://example.com");

    webview.reload();
    assert!(webview.state().is_loading);

    webview.stop_loading();
    assert!(!webview.state().is_loading);
}

#[test]
fn test_embedded_webview_execute_js() {
    let mut webview = EmbeddedWebView::default();

    let callback_id = webview.execute_js("document.title");
    assert!(callback_id.is_some());

    webview.execute_js_fire_and_forget("console.log('test')");
}

#[test]
fn test_embedded_webview_inject_js() {
    let mut webview = EmbeddedWebView::default();

    webview.inject_js("window.corten = {};");
    assert!(webview.config().initialization_script.is_some());

    webview.inject_js("window.corten.version = '0.5.0';");
    let script = webview.config().initialization_script.as_ref().unwrap();
    assert!(script.contains("window.corten = {};"));
    assert!(script.contains("window.corten.version = '0.5.0';"));
}

#[test]
fn test_webview_bridge_messaging() {
    let mut bridge = WebViewBridge::new();

    bridge.navigate("https://example.com");
    bridge.go_back();
    bridge.reload();

    let messages = bridge.take_outgoing();
    assert_eq!(messages.len(), 3);
    assert!(matches!(messages[0], BridgeMessage::Navigate { .. }));
    assert!(matches!(messages[1], BridgeMessage::GoBack));
    assert!(matches!(messages[2], BridgeMessage::Reload));

    let messages = bridge.take_outgoing();
    assert!(messages.is_empty());
}

#[test]
fn test_webview_bridge_events() {
    let mut bridge = WebViewBridge::new();

    bridge.push_event(WebViewEvent::NavigationStarted {
        url: "https://example.com".to_string(),
    });
    bridge.push_event(WebViewEvent::TitleChanged {
        title: "Example".to_string(),
    });

    let events: Vec<_> = bridge.poll_events();
    assert_eq!(events.len(), 2);

    let events: Vec<_> = bridge.poll_events();
    assert!(events.is_empty());
}

#[test]
fn test_webview_bridge_js_callback() {
    let mut bridge = WebViewBridge::new();

    let callback_id1 = bridge.execute_js("script1");
    let callback_id2 = bridge.execute_js("script2");

    assert!(callback_id1.is_some());
    assert!(callback_id2.is_some());
    assert_ne!(callback_id1, callback_id2);
}

#[test]
fn test_webview_builder() {
    let webview = WebViewBuilder::new()
        .with_url("https://example.com")
        .with_devtools(true)
        .with_javascript(true)
        .with_transparent(false)
        .with_background_color(240, 240, 240, 255)
        .with_user_agent("TestBrowser/1.0")
        .with_bounds(WebViewBounds {
            x: 0,
            y: 0,
            width: 1920,
            height: 1080,
        })
        .build()
        .unwrap();

    assert_eq!(webview.state().url, "https://example.com");
    assert!(webview.devtools_enabled());
    assert_eq!(webview.bounds().width, 1920);
    assert_eq!(webview.bounds().height, 1080);
}

#[test]
fn test_webview_builder_with_init_script() {
    let webview = WebViewBuilder::new()
        .with_init_script("window.initialized = true;")
        .build()
        .unwrap();

    assert!(webview.config().initialization_script.is_some());
}

#[test]
fn test_embedded_webview_state_default() {
    let state = EmbeddedWebViewState::default();
    assert_eq!(state.url, "about:blank");
    assert_eq!(state.title, "New Tab");
    assert!(!state.is_loading);
    assert!(!state.can_go_back);
    assert!(!state.can_go_forward);
    assert_eq!(state.zoom_percent, 100);
    assert!(!state.devtools_open);
    assert!(!state.has_focus);
    assert_eq!(state.load_percent, 0);
}

#[test]
fn test_bridge_message_variants() {
    let messages = vec![
        BridgeMessage::Navigate { url: "test".to_string() },
        BridgeMessage::GoBack,
        BridgeMessage::GoForward,
        BridgeMessage::Reload,
        BridgeMessage::StopLoading,
        BridgeMessage::ExecuteJs { script: "test".to_string(), callback_id: None },
        BridgeMessage::SetZoom { percent: 100 },
        BridgeMessage::ToggleDevTools,
        BridgeMessage::OpenDevTools,
        BridgeMessage::CloseDevTools,
        BridgeMessage::Print,
        BridgeMessage::Find { text: "test".to_string(), forward: true, case_sensitive: false },
        BridgeMessage::ClearFind,
        BridgeMessage::IpcMessage { method: "test".to_string(), params: "null".to_string() },
    ];
    assert_eq!(messages.len(), 14);
}

#[test]
fn test_webview_event_variants() {
    let events = vec![
        WebViewEvent::NavigationStarted { url: "test".to_string() },
        WebViewEvent::NavigationCommitted { url: "test".to_string() },
        WebViewEvent::NavigationCompleted { url: "test".to_string() },
        WebViewEvent::NavigationFailed { url: "test".to_string(), error: "error".to_string() },
        WebViewEvent::TitleChanged { title: "test".to_string() },
        WebViewEvent::FaviconChanged { url: Some("test".to_string()) },
        WebViewEvent::JsResult { callback_id: "1".to_string(), result: "null".to_string() },
        WebViewEvent::JsError { callback_id: None, error: "error".to_string() },
        WebViewEvent::IpcReceived { method: "test".to_string(), params: "null".to_string() },
        WebViewEvent::Focused,
        WebViewEvent::Blurred,
        WebViewEvent::NewWindowRequested { url: "test".to_string() },
        WebViewEvent::DownloadStarted { url: "test".to_string(), suggested_filename: "file.txt".to_string() },
        WebViewEvent::ContextMenuRequested { x: 0, y: 0 },
        WebViewEvent::DevToolsOpened,
        WebViewEvent::DevToolsClosed,
        WebViewEvent::FindResult { active_match: 1, total_matches: 5 },
    ];
    assert_eq!(events.len(), 17);
}

#[test]
fn test_window_handle_default() {
    let handle = WindowHandle::default();
    assert!(matches!(handle, WindowHandle::Unsupported));
}

// ---------------------------------------------------------------------------
// Further cases: exact values, errors and the laws on concrete values.
// ---------------------------------------------------------------------------

#[test]
fn manager_ids_count_up_from_one() {
    let mut manager = WebViewManager::default();
    assert_eq!(manager.create_webview(), 1);
    assert_eq!(manager.create_webview(), 2);
    manager.destroy_webview(1).unwrap();
    assert_eq!(manager.create_webview(), 3);
    assert_eq!(manager.get_active_views(), vec![2, 3]);
}

#[test]
fn manager_unknown_view_is_refused() {
    let mut manager = WebViewManager::new();
    assert!(matches!(manager.destroy_webview(7), Err(WebViewError::NotInitialized)));
    assert!(matches!(manager.get_state(7), Err(WebViewError::NotInitialized)));
    assert!(matches!(
        manager.navigate(7, "https://example.com".to_string()),
        Err(WebViewError::NotInitialized)
    ));
    assert!(matches!(manager.go_back(7), Err(WebViewError::NotInitialized)));
    assert!(matches!(manager.go_forward(7), Err(WebViewError::NotInitialized)));
    assert!(matches!(manager.reload(7), Err(WebViewError::NotInitialized)));
    assert!(matches!(manager.stop_loading(7), Err(WebViewError::NotInitialized)));
    assert!(matches!(manager.set_title(7, "t".to_string()), Err(WebViewError::NotInitialized)));
    assert!(matches!(manager.set_zoom(7, 5000), Err(WebViewError::NotInitialized)));
    assert!(matches!(manager.get_zoom(7), Err(WebViewError::NotInitialized)));
    assert!(matches!(
        manager.execute_js(7, "x".to_string()),
        Err(WebViewError::NotInitialized)
    ));
}

#[test]
fn manager_invalid_url_message() {
    let mut manager = WebViewManager::new();
    let id = manager.create_webview();
    match manager.navigate(id, "not a valid url".to_string()) {
        Err(WebViewError::InvalidUrl(m)) => assert_eq!(m, "relative URL without a base"),
        _ => panic!("expected an invalid URL"),
    }
    let state = manager.get_state(id).unwrap();
    assert_eq!(state.current_url, "about:blank");
    assert!(manager.get_navigation_events().is_empty());
}

#[test]
fn manager_navigation_titles_by_host() {
    let mut manager = WebViewManager::new();
    let id = manager.create_webview();
    manager.navigate(id, "https://www.rust-lang.org/learn".to_string()).unwrap();
    assert_eq!(manager.get_state(id).unwrap().title, "www.rust-lang.org");
    manager.navigate(id, "data:text/plain,hello".to_string()).unwrap();
    assert_eq!(manager.get_state(id).unwrap().title, "Loading...");
}

#[test]
fn manager_navigation_events_in_order() {
    let mut manager = WebViewManager::new();
    let id = manager.create_webview();
    manager.navigate(id, "https://example.com".to_string()).unwrap();
    let events = manager.get_navigation_events();
    assert_eq!(events.len(), 2);
    assert!(matches!(&events[0], NavigationEvent::Started { url, .. } if url == "https://example.com"));
    assert!(matches!(&events[1], NavigationEvent::Completed { url, .. } if url == "https://example.com"));
}

#[test]
fn manager_back_and_forward_refused_at_the_ends() {
    let mut manager = WebViewManager::new();
    let id = manager.create_webview();
    match manager.go_back(id) {
        Err(WebViewError::NavigationFailed(m)) => assert_eq!(m, "Cannot go back"),
        _ => panic!("expected a refusal"),
    }
    match manager.go_forward(id) {
        Err(WebViewError::NavigationFailed(m)) => assert_eq!(m, "Cannot go forward"),
        _ => panic!("expected a refusal"),
    }
}

#[test]
fn manager_back_after_navigate_shows_previous_page() {
    let mut manager = WebViewManager::new();
    let id = manager.create_webview();
    manager.navigate(id, "https://a.example".to_string()).unwrap();
    manager.navigate(id, "https://b.example".to_string()).unwrap();
    manager.go_back(id).unwrap();
    manager.go_back(id).unwrap();
    let state = manager.get_state(id).unwrap();
    assert_eq!(state.current_url, "about:blank");
    assert!(!state.can_go_back);
    assert!(state.can_go_forward);
    manager.navigate(id, "https://c.example".to_string()).unwrap();
    let state = manager.get_state(id).unwrap();
    assert!(state.can_go_back);
    assert!(!state.can_go_forward);
    manager.go_back(id).unwrap();
    assert_eq!(manager.get_state(id).unwrap().current_url, "about:blank");
}

#[test]
fn manager_zoom_limits_and_messages() {
    let mut manager = WebViewManager::new();
    let id = manager.create_webview();
    assert_eq!(manager.get_zoom(id).unwrap(), 100);
    manager.set_zoom(id, 25).unwrap();
    assert_eq!(manager.get_zoom(id).unwrap(), 25);
    manager.set_zoom(id, 500).unwrap();
    assert_eq!(manager.get_zoom(id).unwrap(), 500);
    match manager.set_zoom(id, 501) {
        Err(WebViewError::JsError(m)) => assert_eq!(m, "Zoom level must be between 0.25 and 5.0"),
        _ => panic!("expected a refusal"),
    }
    assert_eq!(manager.get_zoom(id).unwrap(), 500);
}

#[test]
fn manager_execute_js_reports_script() {
    let mut manager = WebViewManager::new();
    let id = manager.create_webview();
    assert_eq!(manager.execute_js(id, "1 + 1".to_string()).unwrap(), "Executed: 1 + 1");
    let mut config = manager.get_config();
    config.javascript_enabled = false;
    manager.set_config(config);
    match manager.execute_js(id, "1 + 1".to_string()) {
        Err(WebViewError::JsError(m)) => assert_eq!(m, "JavaScript is disabled"),
        _ => panic!("expected a refusal"),
    }
}

#[test]
fn cache_serves_until_expiry() {
    let mut manager = WebViewManager::new();
    manager.cache_resource_at("u".to_string(), vec![9], "a/b".to_string(), 1_000);
    assert_eq!(
        manager.get_cached_resource_at("u", 1_000 + 86_400_000),
        Some((vec![9], "a/b".to_string()))
    );
    assert_eq!(manager.get_cached_resource_at("u", 1_000 + 86_400_001), None);
    assert_eq!(manager.get_cached_resource_at("v", 1_000), None);
}

#[test]
fn cache_replaces_same_url_and_drops_expired() {
    let mut manager = WebViewManager::new();
    manager.cache_resource_at("old".to_string(), vec![1], "x/y".to_string(), 0);
    manager.cache_resource_at("u".to_string(), vec![1], "x/y".to_string(), 10);
    manager.cache_resource_at("u".to_string(), vec![2, 3], "x/z".to_string(), 20);
    assert_eq!(
        manager.get_cached_resource_at("u", 20),
        Some((vec![2, 3], "x/z".to_string()))
    );
    // Caching after the first resource has expired drops it.
    manager.cache_resource_at("w".to_string(), vec![4], "x/y".to_string(), 86_400_001);
    assert_eq!(manager.get_cached_resource_at("old", 0), None);
    assert_eq!(
        manager.get_cached_resource_at("w", 86_400_001),
        Some((vec![4], "x/y".to_string()))
    );
}

#[test]
fn cache_far_future_saturates() {
    let mut manager = WebViewManager::new();
    manager.cache_resource_at("u".to_string(), vec![5], "x/y".to_string(), u64::MAX - 1);
    assert_eq!(
        manager.get_cached_resource_at("u", u64::MAX),
        Some((vec![5], "x/y".to_string()))
    );
}

#[test]
fn bridge_callback_names_count_up() {
    let mut bridge = WebViewBridge::default();
    assert_eq!(bridge.execute_js("a"), Some("js_callback_1".to_string()));
    assert_eq!(bridge.execute_js("b"), Some("js_callback_2".to_string()));
    let messages = bridge.take_outgoing();
    assert!(matches!(&messages[1], BridgeMessage::ExecuteJs { script, callback_id: Some(c) }
        if script == "b" && c == "js_callback_2"));
}

#[test]
fn bridge_zoom_is_clamped() {
    let mut bridge = WebViewBridge::new();
    bridge.set_zoom(5);
    bridge.set_zoom(120);
    bridge.set_zoom(9000);
    let messages = bridge.take_outgoing();
    assert!(matches!(messages[0], BridgeMessage::SetZoom { percent: 25 }));
    assert!(matches!(messages[1], BridgeMessage::SetZoom { percent: 120 }));
    assert!(matches!(messages[2], BridgeMessage::SetZoom { percent: 500 }));
}

#[test]
fn embedded_process_messages_completes_navigation() {
    let mut webview = EmbeddedWebView::default();
    webview.navigate("https://example.com");
    webview.set_zoom(200);
    let started = webview.poll_events();
    assert_eq!(started.len(), 1);
    assert!(matches!(&started[0], WebViewEvent::NavigationStarted { url } if url == "https://example.com"));
    webview.process_messages();
    assert!(!webview.state().is_loading);
    assert_eq!(webview.state().load_percent, 100);
    assert_eq!(webview.state().zoom_percent, 200);
    let done = webview.poll_events();
    assert_eq!(done.len(), 1);
    assert!(matches!(&done[0], WebViewEvent::NavigationCompleted { url } if url == "https://example.com"));
    assert!(webview.bridge_mut().take_outgoing().is_empty());
}

#[test]
fn embedded_inject_js_joins_lines() {
    let mut webview = EmbeddedWebView::default();
    webview.inject_js("a();");
    webview.inject_js("b();");
    assert_eq!(webview.config().initialization_script.as_deref(), Some("a();\nb();"));
}

#[test]
fn embedded_devtools_events() {
    let mut webview = EmbeddedWebView::default();
    webview.open_devtools();
    webview.open_devtools();
    webview.toggle_devtools();
    webview.close_devtools();
    let events = webview.poll_events();
    assert_eq!(events.len(), 2);
    assert!(matches!(events[0], WebViewEvent::DevToolsOpened));
    assert!(matches!(events[1], WebViewEvent::DevToolsClosed));
}

#[test]
fn builder_places_view_and_keeps_handle() {
    let webview = WebViewBuilder::default()
        .with_window_handle(WindowHandle::X11(42))
        .with_config(EmbedConfig::default())
        .build()
        .unwrap();
    assert_eq!(webview.bounds().width, 800);
    assert_eq!(webview.state().url, "about:blank");
}
