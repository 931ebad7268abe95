//! Menu bar tests.
use browser_shell::menu::{MenuBar, MenuId, MenuItem, MenuSystem};
use browser_shell::types::ComponentError;

#[test]
fn test_menu_bar_default() {
    let menu = MenuBar::new();
    assert!(!menu.can_go_back());
    assert!(!menu.can_go_forward());
    assert!(menu.has_tab());
    assert!(!menu.has_multiple_tabs());
    assert_eq!(menu.zoom_level(), 100);
}

#[test]
fn test_set_navigation_state() {
    let mut menu = MenuBar::new();
    menu.set_navigation_state(true, false);
    assert!(menu.can_go_back());
    assert!(!menu.can_go_forward());
}

#[test]
fn test_set_tab_state() {
    let mut menu = MenuBar::new();
    menu.set_tab_state(true, true);
    assert!(menu.has_tab());
    assert!(menu.has_multiple_tabs());
}

#[test]
fn test_set_edit_state() {
    let mut menu = MenuBar::new();
    menu.set_edit_state(true, true);
    assert!(menu.can_undo());
    assert!(menu.can_redo());
}

#[test]
fn test_set_zoom_level() {
    let mut menu = MenuBar::new();
    menu.set_zoom_level(150);
    assert_eq!(menu.zoom_level(), 150);
}

#[test]
fn menu_bar_default_matches_new() {
    let menu = MenuBar::default();
    assert!(menu.has_tab());
    assert_eq!(menu.zoom_level(), 100);
}

#[test]
fn test_menu_system_creation() {
    let menu = MenuSystem::new();
    assert_eq!(menu.get_all_menus().len(), 0);
}

#[test]
fn test_menu_add_menu() {
    let mut menu = MenuSystem::new();
    let file_menu_id = menu.add_menu("File".to_string());

    assert!(menu.get_menu(file_menu_id).is_some());
    assert_eq!(menu.get_menu(file_menu_id).unwrap().label, "File");
}

#[test]
fn test_menu_add_menu_item() {
    let mut menu = MenuSystem::new();
    let file_menu_id = menu.add_menu("File".to_string());

    let item = MenuItem {
        label: "New Window".to_string(),
        shortcut: Some("Ctrl+N".to_string()),
        enabled: true,
        visible: true,
        separator_after: false,
    };

    let item_id = menu.add_menu_item(file_menu_id, item.clone());
    assert!(item_id.is_ok());

    let menu_data = menu.get_menu(file_menu_id).unwrap();
    assert_eq!(menu_data.items.len(), 1);
}

#[test]
fn test_menu_add_item_to_nonexistent_menu() {
    let mut menu = MenuSystem::new();
    let item = MenuItem {
        label: "Test".to_string(),
        shortcut: None,
        enabled: true,
        visible: true,
        separator_after: false,
    };

    let result = menu.add_menu_item(999, item);
    assert!(result.is_err());
}

#[test]
fn test_menu_set_item_enabled() {
    let mut menu = MenuSystem::new();
    let file_menu_id = menu.add_menu("File".to_string());

    let item = MenuItem {
        label: "Save".to_string(),
        shortcut: Some("Ctrl+S".to_string()),
        enabled: true,
        visible: true,
        separator_after: false,
    };

    let item_id = menu.add_menu_item(file_menu_id, item).unwrap();

    let result = menu.set_item_enabled(file_menu_id, item_id, false);
    assert!(result.is_ok());

    let menu_data = menu.get_menu(file_menu_id).unwrap();
    assert!(!menu_data.items[0].enabled);
}

#[test]
fn test_menu_get_item_shortcut() {
    let mut menu = MenuSystem::new();
    let file_menu_id = menu.add_menu("File".to_string());

    let item = MenuItem {
        label: "Open".to_string(),
        shortcut: Some("Ctrl+O".to_string()),
        enabled: true,
        visible: true,
        separator_after: false,
    };

    menu.add_menu_item(file_menu_id, item).unwrap();

    let menu_data = menu.get_menu(file_menu_id).unwrap();
    assert_eq!(menu_data.items[0].shortcut, Some("Ctrl+O".to_string()));
}

#[test]
fn test_menu_remove_menu() {
    let mut menu = MenuSystem::new();
    let file_menu_id = menu.add_menu("File".to_string());

    assert!(menu.get_menu(file_menu_id).is_some());

    let result = menu.remove_menu(file_menu_id);
    assert!(result.is_ok());
    assert!(menu.get_menu(file_menu_id).is_none());
}

#[test]
fn test_menu_get_all_menus() {
    let mut menu = MenuSystem::new();
    menu.add_menu("File".to_string());
    menu.add_menu("Edit".to_string());
    menu.add_menu("View".to_string());

    let all_menus = menu.get_all_menus();
    assert_eq!(all_menus.len(), 3);
}

#[test]
fn test_menu_item_separator() {
    let item = MenuItem {
        label: "---".to_string(),
        shortcut: None,
        enabled: false,
        visible: true,
        separator_after: true,
    };

    assert!(item.separator_after);
}

fn plain_item(label: &str) -> MenuItem {
    MenuItem { label: label.to_string(), shortcut: None, enabled: true, visible: true, separator_after: false }
}

#[test]
fn menu_system_ids_and_positions() {
    let mut menu = MenuSystem::new();
    let file: MenuId = menu.add_menu("File".to_string());
    let edit: MenuId = menu.add_menu("Edit".to_string());
    assert_eq!(file, 1);
    assert_eq!(edit, 2);
    assert_eq!(menu.add_menu_item(edit, plain_item("Cut")), Ok(0));
    assert_eq!(menu.add_menu_item(edit, plain_item("Copy")), Ok(1));
    assert_eq!(menu.get_menu(edit).unwrap().items[1].label, "Copy");
    assert!(menu.get_menu(file).unwrap().items.is_empty());
    menu.remove_menu(file).unwrap();
    assert_eq!(menu.get_all_menus().len(), 1);
    assert_eq!(menu.get_menu(edit).unwrap().label, "Edit");
    let again = menu.add_menu("File".to_string());
    assert_eq!(again, 3);
}

#[test]
fn menu_system_errors() {
    let mut menu = MenuSystem::new();
    let file = menu.add_menu("File".to_string());
    assert_eq!(
        menu.add_menu_item(7, plain_item("x")),
        Err(ComponentError::ResourceNotFound("Menu 7 not found".to_string()))
    );
    assert_eq!(
        menu.set_item_enabled(file, 0, false),
        Err(ComponentError::ResourceNotFound("Menu item 0 not found".to_string()))
    );
    assert_eq!(
        menu.remove_menu(42),
        Err(ComponentError::ResourceNotFound("Menu 42 not found".to_string()))
    );
    assert_eq!(menu.get_all_menus().len(), 1);
}
