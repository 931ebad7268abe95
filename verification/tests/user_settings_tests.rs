use browser_shell::user_settings::{SettingsError, SettingsManager, SettingsStorage};

fn create_test_settings() -> SettingsManager {
    let storage = SettingsStorage::new().expect("Failed to create storage");
    SettingsManager::new(storage).expect("Failed to create settings manager")
}

fn value_of<'a>(all: &'a [(String, String)], key: &str) -> Option<&'a String> {
    all.iter().find(|(k, _)| k == key).map(|(_, v)| v)
}

/// The rows of a manager's table, as they would be written out and read
/// back by a later run.
fn reopen(settings: &SettingsManager) -> SettingsManager {
    let rows = settings.list_all().expect("Failed to list settings");
    SettingsManager::new(SettingsStorage::load(rows)).expect("Failed to create settings")
}

#[test]
fn test_set_empty_key_returns_error() {
    let mut manager = create_test_settings();
    let result = manager.set("", "value");
    assert!(result.is_err());
}

#[test]
fn test_basic_set_get() {
    let mut manager = create_test_settings();
    manager.set("test_key", "test_value").unwrap();
    let value = manager.get("test_key").unwrap();
    assert_eq!(value, Some("test_value".to_string()));
}

#[test]
fn test_storage_creation() {
    let _storage = SettingsStorage::new().unwrap();
}

#[test]
fn test_set_and_get() {
    let mut storage = SettingsStorage::new().unwrap();

    storage.set("key1", "value1").unwrap();
    let value = storage.get("key1").unwrap();

    assert_eq!(value, Some("value1".to_string()));
}

#[test]
fn test_delete() {
    let mut storage = SettingsStorage::new().unwrap();

    storage.set("key1", "value1").unwrap();
    let deleted = storage.delete("key1").unwrap();

    assert!(deleted);

    let value = storage.get("key1").unwrap();
    assert_eq!(value, None);
}

#[test]
fn test_full_user_data_workflow() {
    let mut settings = create_test_settings();
    settings.set("theme", "dark").expect("Failed to set theme");
    let theme = settings.get("theme").expect("Failed to get theme");
    assert_eq!(theme, Some("dark".to_string()));

    // Verify persistence
    let settings = reopen(&settings);
    let theme = settings.get("theme").expect("Failed to get theme");
    assert_eq!(theme, Some("dark".to_string()));
}

#[test]
fn test_concurrent_access_safety() {
    let mut settings = create_test_settings();

    for i in 0..100 {
        let key = format!("key{}", i);
        let value = format!("value{}", i);
        settings.set(&key, &value).expect("Failed to set setting");
    }

    let all = settings.list_all().expect("Failed to list settings");
    assert_eq!(all.len(), 100);
}

#[test]
fn test_settings_manager_creation() {
    let _settings = create_test_settings();
}

#[test]
fn test_set_and_get_string_setting() {
    let mut settings = create_test_settings();

    settings.set("theme", "dark").expect("Failed to set setting");
    let value = settings.get("theme").expect("Failed to get setting");

    assert_eq!(value, Some("dark".to_string()));
}

#[test]
fn test_get_nonexistent_setting_returns_none() {
    let settings = create_test_settings();

    let value = settings.get("nonexistent").expect("Failed to get setting");

    assert_eq!(value, None);
}

#[test]
fn test_update_existing_setting() {
    let mut settings = create_test_settings();

    settings.set("language", "en").expect("Failed to set setting");
    settings.set("language", "es").expect("Failed to update setting");

    let value = settings.get("language").expect("Failed to get setting");
    assert_eq!(value, Some("es".to_string()));
}

#[test]
fn test_delete_setting() {
    let mut settings = create_test_settings();

    settings.set("temp", "value").expect("Failed to set setting");
    let deleted = settings.delete("temp").expect("Failed to delete setting");

    assert!(deleted, "Should return true when deleting existing key");

    let value = settings.get("temp").expect("Failed to get setting");
    assert_eq!(value, None, "Setting should be deleted");
}

#[test]
fn test_delete_nonexistent_setting() {
    let mut settings = create_test_settings();

    let deleted = settings.delete("nonexistent").expect("Failed to delete setting");

    assert!(!deleted, "Should return false when deleting non-existent key");
}

#[test]
fn test_list_all_settings() {
    let mut settings = create_test_settings();

    settings.set("key1", "value1").expect("Failed to set setting");
    settings.set("key2", "value2").expect("Failed to set setting");
    settings.set("key3", "value3").expect("Failed to set setting");

    let all = settings.list_all().expect("Failed to list settings");

    assert_eq!(all.len(), 3);
    assert_eq!(value_of(&all, "key1"), Some(&"value1".to_string()));
    assert_eq!(value_of(&all, "key2"), Some(&"value2".to_string()));
    assert_eq!(value_of(&all, "key3"), Some(&"value3".to_string()));
}

#[test]
fn test_clear_all_settings() {
    let mut settings = create_test_settings();

    settings.set("key1", "value1").expect("Failed to set setting");
    settings.set("key2", "value2").expect("Failed to set setting");

    settings.clear_all().expect("Failed to clear settings");

    let all = settings.list_all().expect("Failed to list settings");
    assert_eq!(all.len(), 0, "All settings should be cleared");
}

#[test]
fn test_settings_persistence_across_instances() {
    let mut settings = create_test_settings();
    settings.set("persistent", "value").expect("Failed to set setting");

    let settings = reopen(&settings);
    let value = settings.get("persistent").expect("Failed to get setting");
    assert_eq!(value, Some("value".to_string()));
}

#[test]
fn user_settings_empty_key_error_and_state() {
    let mut settings = create_test_settings();
    settings.set("a", "1").unwrap();
    let err = settings.set("", "x").unwrap_err();
    assert_eq!(err, SettingsError::InvalidKey("Key cannot be empty".to_string()));
    let all = settings.list_all().unwrap();
    assert_eq!(all, vec![("a".to_string(), "1".to_string())]);
}

#[test]
fn user_settings_delete_leaves_other_keys() {
    let mut settings = create_test_settings();
    settings.set("a", "1").unwrap();
    settings.set("b", "2").unwrap();
    settings.set("c", "3").unwrap();
    assert!(settings.delete("b").unwrap());
    assert!(!settings.delete("b").unwrap());
    assert_eq!(settings.get("a").unwrap(), Some("1".to_string()));
    assert_eq!(settings.get("c").unwrap(), Some("3".to_string()));
    assert_eq!(
        settings.list_all().unwrap(),
        vec![("a".to_string(), "1".to_string()), ("c".to_string(), "3".to_string())]
    );
}

#[test]
fn user_settings_load_later_row_wins() {
    let rows = vec![
        ("k".to_string(), "old".to_string()),
        ("j".to_string(), "x".to_string()),
        ("k".to_string(), "new".to_string()),
    ];
    let storage = SettingsStorage::load(rows);
    assert_eq!(storage.get("k").unwrap(), Some("new".to_string()));
    assert_eq!(
        storage.list_all().unwrap(),
        vec![("k".to_string(), "new".to_string()), ("j".to_string(), "x".to_string())]
    );
}

#[test]
fn user_settings_update_keeps_position() {
    let mut settings = create_test_settings();
    settings.set("x", "1").unwrap();
    settings.set("y", "2").unwrap();
    settings.set("x", "3").unwrap();
    assert_eq!(
        settings.list_all().unwrap(),
        vec![("x".to_string(), "3".to_string()), ("y".to_string(), "2".to_string())]
    );
}
