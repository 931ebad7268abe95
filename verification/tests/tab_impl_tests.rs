//! Tab manager (shared interface), tab state, process table and tab drag
//! tests.
use browser_shell::tab_drag::{DragPoint, TabDragState, TabSpan};
use browser_shell::tab_impl::{MockProcessManager, TabManagerImpl, TabState};
use browser_shell::types::{ProcessId, TabError, TabId, WindowId};

#[test]
fn test_allocate_process() {
    let mut manager = MockProcessManager::new();
    let tab_id = TabId::new();

    let process_id = manager.allocate_process(tab_id);
    assert_eq!(process_id.0, 1000);

    let retrieved = manager.get_process(tab_id);
    assert_eq!(retrieved, Some(process_id));
}

#[test]
fn test_allocate_multiple_processes() {
    let mut manager = MockProcessManager::new();
    let tab1 = TabId::new();
    let tab2 = TabId::new();

    let pid1 = manager.allocate_process(tab1);
    let pid2 = manager.allocate_process(tab2);

    assert_ne!(pid1, pid2);
    assert_eq!(pid1.0, 1000);
    assert_eq!(pid2.0, 1001);
}

#[test]
fn test_release_process() {
    let mut manager = MockProcessManager::new();
    let tab_id = TabId::new();

    let process_id = manager.allocate_process(tab_id);
    assert_eq!(manager.process_count(), 1);

    let released = manager.release_process(tab_id);
    assert_eq!(released, Some(process_id));
    assert_eq!(manager.process_count(), 0);
    assert_eq!(manager.get_process(tab_id), None);
}

#[test]
fn test_active_processes() {
    let mut manager = MockProcessManager::new();
    let tab1 = TabId::new();
    let tab2 = TabId::new();

    manager.allocate_process(tab1);
    manager.allocate_process(tab2);

    let active = manager.active_processes();
    assert_eq!(active.len(), 2);
}

#[test]
fn test_new_tab_state() {
    let tab_id = TabId::new();
    let window_id = WindowId::new();

    let state = TabState::new(tab_id, window_id, None);

    assert_eq!(state.id, tab_id);
    assert_eq!(state.window_id, window_id);
    assert_eq!(state.title, "New Tab");
    assert!(!state.loading);
    assert!(state.process_id.is_none());
}

#[test]
fn test_new_tab_state_with_url() {
    let tab_id = TabId::new();
    let window_id = WindowId::new();
    let url = "https://example.com".to_string();

    let state = TabState::new(tab_id, window_id, Some(url));

    assert_eq!(
        state.history.current_url().map(|u| u.as_str()),
        Some("https://example.com")
    );
}

#[test]
fn test_navigate_updates_history() {
    let tab_id = TabId::new();
    let window_id = WindowId::new();

    let mut state = TabState::new(tab_id, window_id, None);

    let url = "https://example.com".to_string();
    state.navigate(url);

    assert!(state.loading);
    assert_eq!(
        state.history.current_url().map(|u| u.as_str()),
        Some("https://example.com")
    );
}

#[test]
fn test_to_tab_conversion() {
    let tab_id = TabId::new();
    let window_id = WindowId::new();
    let url = "https://example.com".to_string();

    let state = TabState::new(tab_id, window_id, Some(url));
    let tab = state.to_tab();

    assert_eq!(tab.id, tab_id);
    assert_eq!(tab.window_id, window_id);
    assert_eq!(tab.url.as_ref().map(|u| u.as_str()), Some("https://example.com"));
}

#[test]
fn test_set_process() {
    let tab_id = TabId::new();
    let window_id = WindowId::new();

    let mut state = TabState::new(tab_id, window_id, None);

    let process_id = ProcessId(1000);
    state.set_process(process_id);

    assert_eq!(state.process_id, Some(process_id));
}

#[test]
fn test_tab_drag_state_default() {
    let state = TabDragState::default();
    assert!(!state.is_dragging());
    assert!(state.dragging_tab.is_none());
}

#[test]
fn test_start_drag() {
    let mut state = TabDragState::new();
    let tab_id = TabId::new();
    let pos = DragPoint { x: 100, y: 50 };

    state.start_drag(tab_id, pos, 2);

    assert!(state.is_dragging());
    assert_eq!(state.dragging_tab, Some(tab_id));
    assert_eq!(state.drag_start_pos, Some(pos));
    assert_eq!(state.original_index, Some(2));
}

#[test]
fn test_end_drag_with_movement() {
    let mut state = TabDragState::new();
    let tab_id = TabId::new();
    let pos = DragPoint { x: 100, y: 50 };

    state.start_drag(tab_id, pos, 2);
    state.drop_target_index = Some(4);

    let result = state.end_drag();

    assert!(result.is_some());
    let (id, original, target) = result.unwrap();
    assert_eq!(id, tab_id);
    assert_eq!(original, 2);
    assert_eq!(target, 4);
    assert!(!state.is_dragging());
}

#[test]
fn test_end_drag_without_movement() {
    let mut state = TabDragState::new();
    let tab_id = TabId::new();
    let pos = DragPoint { x: 100, y: 50 };

    state.start_drag(tab_id, pos, 2);

    let result = state.end_drag();

    assert!(result.is_none());
    assert!(!state.is_dragging());
}

#[test]
fn test_cancel_drag() {
    let mut state = TabDragState::new();
    let tab_id = TabId::new();
    let pos = DragPoint { x: 100, y: 50 };

    state.start_drag(tab_id, pos, 2);
    state.cancel_drag();

    assert!(!state.is_dragging());
    assert!(state.dragging_tab.is_none());
}

// ---------------------------------------------------------------------------
// Further cases.
// ---------------------------------------------------------------------------

fn spans() -> Vec<TabSpan> {
    vec![
        TabSpan { tab_id: TabId(1), left: 0, right: 100 },
        TabSpan { tab_id: TabId(2), left: 100, right: 200 },
        TabSpan { tab_id: TabId(3), left: 200, right: 301 },
    ]
}

#[test]
fn drag_drop_target_by_centres() {
    let mut state = TabDragState::new();
    state.start_drag(TabId(2), DragPoint { x: 150, y: 10 }, 1);
    state.update_drag(DragPoint { x: 40, y: 10 });
    state.calculate_drop_target(&spans());
    assert_eq!(state.drop_target_index, Some(0));
    state.update_drag(DragPoint { x: 150, y: 10 });
    state.calculate_drop_target(&spans());
    assert_eq!(state.drop_target_index, Some(2));
    // Exactly at a centre does not count as left of it.
    state.update_drag(DragPoint { x: 250, y: 10 });
    state.calculate_drop_target(&spans());
    assert_eq!(state.drop_target_index, Some(2));
    state.update_drag(DragPoint { x: 251, y: 10 });
    state.calculate_drop_target(&spans());
    assert_eq!(state.drop_target_index, Some(3));
    assert_eq!(state.end_drag(), Some((TabId(2), 1, 3)));
}

#[test]
fn drag_updates_ignored_when_idle() {
    let mut state = TabDragState::new();
    state.update_drag(DragPoint { x: 5, y: 5 });
    assert_eq!(state.current_drag_pos, None);
    state.calculate_drop_target(&spans());
    assert_eq!(state.drop_target_index, None);
    assert_eq!(state.end_drag(), None);
}

#[test]
fn impl_create_and_get_tab() {
    let mut manager = TabManagerImpl::new();
    let window_id = WindowId::new();
    let tab_id = manager
        .create_tab(window_id, Some("https://example.com".to_string()))
        .unwrap();
    let tab = manager.get_tab(tab_id).unwrap();
    assert_eq!(tab.url.as_deref(), Some("https://example.com"));
    assert_eq!(tab.title, "New Tab");
    assert_eq!(tab.process_id, Some(ProcessId(1000)));
    assert_eq!(tab.render_surface.0, tab_id.0);
    assert!(!tab.can_go_back);
    assert_eq!(manager.tab_count(), 1);
    assert!(manager.is_active_tab(tab_id));
}

#[test]
fn impl_first_tab_of_window_is_active() {
    let mut manager = TabManagerImpl::default();
    let w = WindowId(7);
    let a = manager.create_tab(w, None).unwrap();
    let b = manager.create_tab(w, None).unwrap();
    assert!(manager.is_active_tab(a));
    assert!(!manager.is_active_tab(b));
    manager.activate_tab(b).unwrap();
    assert!(manager.is_active_tab(b));
    assert!(!manager.is_active_tab(a));
}

#[test]
fn impl_closing_active_tab_activates_next() {
    let mut manager = TabManagerImpl::new();
    let w = WindowId(1);
    let other = WindowId(2);
    let a = manager.create_tab(w, None).unwrap();
    let x = manager.create_tab(other, None).unwrap();
    let b = manager.create_tab(w, None).unwrap();
    manager.close_tab(a).unwrap();
    assert!(manager.is_active_tab(b));
    assert!(manager.is_active_tab(x));
    manager.close_tab(b).unwrap();
    assert_eq!(manager.get_tabs(w).len(), 0);
    assert_eq!(manager.get_tabs(other).len(), 1);
    assert!(matches!(manager.close_tab(b), Err(TabError::NotFound(_))));
}

#[test]
fn impl_navigation_history() {
    let mut manager = TabManagerImpl::new();
    let w = WindowId(1);
    let t = manager.create_tab(w, Some("https://a.example".to_string())).unwrap();
    manager.navigate(t, "https://b.example".to_string()).unwrap();
    let tab = manager.get_tab(t).unwrap();
    assert!(tab.loading);
    assert!(tab.can_go_back);
    assert!(!tab.can_go_forward);
    manager.go_back(t).unwrap();
    let tab = manager.get_tab(t).unwrap();
    assert_eq!(tab.url.as_deref(), Some("https://a.example"));
    assert!(tab.can_go_forward);
    match manager.go_back(t) {
        Err(TabError::NavigationFailed(m)) => assert_eq!(m, "No back history available"),
        _ => panic!("expected a refusal"),
    }
    manager.go_forward(t).unwrap();
    assert_eq!(manager.get_tab(t).unwrap().url.as_deref(), Some("https://b.example"));
    match manager.go_forward(t) {
        Err(TabError::NavigationFailed(m)) => assert_eq!(m, "No forward history available"),
        _ => panic!("expected a refusal"),
    }
    manager.stop(t).unwrap();
    assert!(!manager.get_tab(t).unwrap().loading);
    manager.reload(t, false).unwrap();
    assert!(manager.get_tab(t).unwrap().loading);
}

#[test]
fn impl_unknown_tab_is_refused() {
    let mut manager = TabManagerImpl::new();
    let t = TabId(99);
    assert!(matches!(manager.navigate(t, "u".to_string()), Err(TabError::NotFound(_))));
    assert!(matches!(manager.reload(t, true), Err(TabError::NotFound(_))));
    assert!(matches!(manager.stop(t), Err(TabError::NotFound(_))));
    assert!(matches!(manager.go_back(t), Err(TabError::NotFound(_))));
    assert!(matches!(manager.go_forward(t), Err(TabError::NotFound(_))));
    assert!(matches!(manager.activate_tab(t), Err(TabError::NotFound(_))));
    assert!(manager.get_tab(t).is_none());
    assert!(!manager.is_active_tab(t));
}

#[test]
fn impl_processes_follow_tabs() {
    let mut manager = TabManagerImpl::new();
    let w = WindowId(3);
    let a = manager.create_tab(w, None).unwrap();
    let b = manager.create_tab(w, None).unwrap();
    assert_eq!(manager.get_tab(b).unwrap().process_id, Some(ProcessId(1001)));
    manager.close_tab(a).unwrap();
    assert_eq!(manager.tab_count(), 1);
}
