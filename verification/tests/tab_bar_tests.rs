//! Tab bar widget tests.
use browser_shell::tab_bar::{TabBar, TabError, TabInfo};

#[test]
fn tab_bar_new_creates_empty() {
    let bar = TabBar::new();
    assert_eq!(bar.tab_count(), 0);
    assert!(bar.active_tab().is_none());
}

#[test]
fn tab_bar_add_tab_increments_count() {
    let mut bar = TabBar::new();
    let info = TabInfo {
        title: "Test".to_string(),
        url: None,
        favicon: None,
        loading: false,
    };

    bar.add_tab(info);
    assert_eq!(bar.tab_count(), 1);
}

#[test]
fn tab_bar_add_tab_sets_active() {
    let mut bar = TabBar::new();
    let info = TabInfo {
        title: "Test".to_string(),
        url: None,
        favicon: None,
        loading: false,
    };

    let tab_id = bar.add_tab(info);
    assert_eq!(bar.active_tab(), Some(tab_id));
}

#[test]
fn tab_bar_close_tab_decrements_count() {
    let mut bar = TabBar::new();
    let info = TabInfo {
        title: "Test".to_string(),
        url: None,
        favicon: None,
        loading: false,
    };

    let tab_id = bar.add_tab(info);
    bar.close_tab(tab_id).unwrap();
    assert_eq!(bar.tab_count(), 0);
}

#[test]
fn tab_bar_close_last_tab_clears_active() {
    let mut bar = TabBar::new();
    let info = TabInfo {
        title: "Test".to_string(),
        url: None,
        favicon: None,
        loading: false,
    };

    let tab_id = bar.add_tab(info);
    bar.close_tab(tab_id).unwrap();
    assert!(bar.active_tab().is_none());
}

#[test]
fn tab_info_equality() {
    let info1 = TabInfo {
        title: "Test".to_string(),
        url: Some("https://example.com".to_string()),
        favicon: None,
        loading: false,
    };

    let info2 = TabInfo {
        title: "Test".to_string(),
        url: Some("https://example.com".to_string()),
        favicon: None,
        loading: false,
    };

    assert_eq!(info1, info2);
}



#[test]
fn test_tab_bar_creation() {
    let bar = TabBar::new();
    assert_eq!(bar.tab_count(), 0);
    assert!(bar.active_tab().is_none());
}

#[test]
fn test_tab_bar_add_tab() {
    let mut bar = TabBar::new();
    let info = TabInfo {
        title: "Test Tab".to_string(),
        url: Some("https://example.com".to_string()),
        favicon: None,
        loading: false,
    };

    let tab_id = bar.add_tab(info.clone());
    assert_eq!(bar.tab_count(), 1);
    assert_eq!(bar.active_tab(), Some(tab_id));
}

#[test]
fn test_tab_bar_close_tab() {
    let mut bar = TabBar::new();
    let info = TabInfo {
        title: "Test Tab".to_string(),
        url: None,
        favicon: None,
        loading: false,
    };

    let tab_id = bar.add_tab(info);
    assert_eq!(bar.tab_count(), 1);

    let result = bar.close_tab(tab_id);
    assert!(result.is_ok());
    assert_eq!(bar.tab_count(), 0);
}

#[test]
fn test_tab_bar_close_nonexistent_tab() {
    let mut bar = TabBar::new();
    let result = bar.close_tab(999);
    assert!(result.is_err());
}

#[test]
fn test_tab_bar_activate_tab() {
    let mut bar = TabBar::new();
    let info1 = TabInfo {
        title: "Tab 1".to_string(),
        url: None,
        favicon: None,
        loading: false,
    };
    let info2 = TabInfo {
        title: "Tab 2".to_string(),
        url: None,
        favicon: None,
        loading: false,
    };

    let tab1 = bar.add_tab(info1);
    let tab2 = bar.add_tab(info2);

    assert_eq!(bar.active_tab(), Some(tab2));

    let result = bar.set_active_tab(tab1);
    assert!(result.is_ok());
    assert_eq!(bar.active_tab(), Some(tab1));
}

#[test]
fn test_tab_bar_get_tab_info() {
    let mut bar = TabBar::new();
    let info = TabInfo {
        title: "Test Tab".to_string(),
        url: Some("https://example.com".to_string()),
        favicon: None,
        loading: false,
    };

    let tab_id = bar.add_tab(info.clone());
    let retrieved = bar.get_tab_info(tab_id);

    assert!(retrieved.is_some());
    assert_eq!(retrieved.unwrap().title, "Test Tab");
}

#[test]
fn test_tab_bar_update_tab_info() {
    let mut bar = TabBar::new();
    let info = TabInfo {
        title: "Old Title".to_string(),
        url: None,
        favicon: None,
        loading: false,
    };

    let tab_id = bar.add_tab(info);

    let updated = TabInfo {
        title: "New Title".to_string(),
        url: Some("https://example.com".to_string()),
        favicon: None,
        loading: true,
    };

    let result = bar.update_tab_info(tab_id, updated);
    assert!(result.is_ok());

    let retrieved = bar.get_tab_info(tab_id).unwrap();
    assert_eq!(retrieved.title, "New Title");
    assert!(retrieved.loading);
}

#[test]
fn test_tab_bar_get_all_tabs() {
    let mut bar = TabBar::new();
    let info1 = TabInfo {
        title: "Tab 1".to_string(),
        url: None,
        favicon: None,
        loading: false,
    };
    let info2 = TabInfo {
        title: "Tab 2".to_string(),
        url: None,
        favicon: None,
        loading: false,
    };

    bar.add_tab(info1);
    bar.add_tab(info2);

    let tabs = bar.get_all_tabs();
    assert_eq!(tabs.len(), 2);
}

#[test]
fn tab_bar_close_active_tab_activates_last() {
    let mut bar = TabBar::new();
    let mk = |t: &str| TabInfo { title: t.to_string(), url: None, favicon: None, loading: false };
    let a = bar.add_tab(mk("a"));
    let b = bar.add_tab(mk("b"));
    let c = bar.add_tab(mk("c"));
    bar.set_active_tab(b).unwrap();
    bar.close_tab(b).unwrap();
    assert_eq!(bar.active_tab(), Some(c));
    bar.set_active_tab(a).unwrap();
    bar.close_tab(c).unwrap();
    assert_eq!(bar.active_tab(), Some(a));
    assert_eq!(bar.close_tab(c), Err(TabError::TabNotFound));
    assert_eq!(bar.set_active_tab(42), Err(TabError::TabNotFound));
    assert_eq!(TabError::TabNotFound.message(), "Tab not found");
    assert_eq!(TabError::InvalidTabId.message(), "Invalid tab ID");
}
