//! Sync manager tests: sign in and out, the queue, encryption, pausing,
//! data types and sync passes.
use browser_shell::sync::{
    Change, ChangeData, ChangeOperation, ConflictStrategy, SyncAccount, SyncAccountCredentials,
    SyncDataType, SyncError, SyncState,
};
use browser_shell::sync_manager::SyncManager;

fn make_account() -> SyncAccount {
    SyncAccount::new(
        "acc_123".to_string(),
        "test@example.com".to_string(),
        "https://sync.example.com".to_string(),
        "Test Device".to_string(),
    )
}

fn make_credentials() -> SyncAccountCredentials {
    SyncAccountCredentials::new("test@example.com".to_string(), "token_123".to_string())
}

fn make_change(data_type: SyncDataType, entity: &str) -> Change {
    Change::new(
        data_type,
        entity.to_string(),
        ChangeOperation::Create,
        ChangeData::Other("{\"url\":\"https://example.com\"}".to_string()),
        "device".to_string(),
    )
}

#[test]
fn test_login_logout() {
    let mut manager = SyncManager::new();

    assert!(!manager.is_logged_in());

    manager
        .login(make_account(), make_credentials(), "password")
        .unwrap();

    assert!(manager.is_logged_in());
    let account = manager.get_account().unwrap();
    assert_eq!(account.email, "test@example.com");

    manager.logout().unwrap();
    assert!(!manager.is_logged_in());
}

#[test]
fn test_sync_not_logged_in() {
    let mut manager = SyncManager::new();

    let result = manager.sync(vec![SyncDataType::Bookmarks]);
    assert!(matches!(result, Err(SyncError::NotLoggedIn)));
}

#[test]
fn test_queue_change() {
    let mut manager = SyncManager::new();

    let change = make_change(SyncDataType::Bookmarks, "bm_1");

    manager.queue_change(change);

    let status = manager.get_sync_status();
    assert_eq!(status.pending_changes, 1);
}

#[test]
fn test_encryption_after_login() {
    let mut manager = SyncManager::new();

    manager
        .login(make_account(), make_credentials(), "password123")
        .unwrap();

    let plaintext = b"secret data";
    let encrypted = manager.encrypt(plaintext).unwrap();
    let decrypted = manager.decrypt(&encrypted).unwrap();

    assert_eq!(decrypted, plaintext);
}

#[test]
fn test_pause_resume() {
    let mut manager = SyncManager::new();

    manager.pause();
    let status = manager.get_sync_status();
    assert!(matches!(status.state, SyncState::Paused));

    manager.resume();
    let status = manager.get_sync_status();
    assert!(matches!(status.state, SyncState::Idle));
}

#[test]
fn test_set_conflict_strategy() {
    let mut manager = SyncManager::new();

    manager.set_conflict_strategy(ConflictStrategy::LocalWins);
}

#[test]
fn test_type_enable_disable() {
    let mut manager = SyncManager::new();

    manager
        .login(make_account(), make_credentials(), "password")
        .unwrap();

    manager
        .set_type_enabled(SyncDataType::Passwords, false)
        .unwrap();

    let account = manager.get_account().unwrap();
    assert!(!account.is_type_enabled(SyncDataType::Passwords));
    assert!(account.is_type_enabled(SyncDataType::Bookmarks));
}

// ---------------------------------------------------------------------------
// Further cases.
// ---------------------------------------------------------------------------

#[test]
fn manager_signed_out_refusals() {
    let mut manager = SyncManager::default();
    assert!(matches!(manager.encrypt(b"x"), Err(SyncError::NotLoggedIn)));
    assert!(matches!(
        manager.set_type_enabled(SyncDataType::History, true),
        Err(SyncError::NotLoggedIn)
    ));
    assert!(matches!(
        manager.get_type_status(SyncDataType::History),
        Err(SyncError::NotLoggedIn)
    ));
    assert!(manager.get_account().is_none());
}

#[test]
fn manager_sync_uploads_queue_and_records_times() {
    let mut manager = SyncManager::with_conflict_strategy(ConflictStrategy::Merge);
    manager.login(make_account(), make_credentials(), "pw").unwrap();
    manager.queue_change(make_change(SyncDataType::Bookmarks, "a"));
    manager.queue_change(make_change(SyncDataType::History, "b"));
    manager.register_data_source(SyncDataType::Bookmarks);
    let result = manager.sync(vec![SyncDataType::Bookmarks]).unwrap();
    assert!(result.success);
    assert_eq!(result.changes_uploaded, 2);
    assert_eq!(result.changes_downloaded, 0);
    assert!(manager.offline_queue().is_empty());
    let status = manager.get_sync_status();
    assert_eq!(status.state, SyncState::Idle);
    assert!(status.last_sync.is_some());
    assert_eq!(status.error_message, None);
    let bm = manager.get_type_status(SyncDataType::Bookmarks).unwrap();
    assert!(bm.last_sync.is_some());
    assert!(bm.is_enabled);
    let hist = manager.get_type_status(SyncDataType::History).unwrap();
    assert!(hist.last_sync.is_none());
}

#[test]
fn manager_sync_without_source_reports_error() {
    let mut manager = SyncManager::new();
    manager.login(make_account(), make_credentials(), "pw").unwrap();
    let result = manager.sync(vec![SyncDataType::History]).unwrap();
    assert!(result.success);
    let status = manager.get_sync_status();
    assert_eq!(status.state, SyncState::Idle);
    assert_eq!(
        status.error_message.as_deref(),
        Some("Error syncing history: Data type history is not enabled for sync")
    );
}

#[test]
fn manager_sync_skips_disabled_types() {
    let mut manager = SyncManager::new();
    manager.login(make_account(), make_credentials(), "pw").unwrap();
    manager.set_type_enabled(SyncDataType::Passwords, false).unwrap();
    manager.sync(vec![SyncDataType::Passwords]).unwrap();
    // The disabled type was not covered, so no error was recorded.
    assert_eq!(manager.get_sync_status().error_message, None);
}

#[test]
fn manager_pending_counts_per_type() {
    let mut manager = SyncManager::new();
    manager.login(make_account(), make_credentials(), "pw").unwrap();
    manager.queue_change(make_change(SyncDataType::Bookmarks, "a"));
    manager.queue_change(make_change(SyncDataType::Bookmarks, "b"));
    manager.queue_change(make_change(SyncDataType::History, "c"));
    assert_eq!(manager.get_type_status(SyncDataType::Bookmarks).unwrap().pending_changes, 2);
    assert_eq!(manager.get_type_status(SyncDataType::History).unwrap().pending_changes, 1);
    assert_eq!(manager.get_type_status(SyncDataType::Settings).unwrap().pending_changes, 0);
    manager.logout().unwrap();
    assert_eq!(manager.get_sync_status().pending_changes, 0);
    assert!(manager.offline_queue().is_empty());
    assert!(!manager.get_sync_status().is_enabled);
}

#[test]
fn manager_resume_only_from_pause() {
    let mut manager = SyncManager::new();
    manager.resume();
    assert_eq!(manager.get_sync_status().state, SyncState::Idle);
}

#[test]
fn manager_sync_with_no_types_covers_registered_sources() {
    let mut manager = SyncManager::new();
    manager.login(make_account(), make_credentials(), "pw").unwrap();
    manager.register_data_source(SyncDataType::Settings);
    manager.register_data_source(SyncDataType::OpenTabs);
    let result = manager.sync(Vec::new()).unwrap();
    assert!(result.success);
    let status = manager.get_sync_status();
    assert_eq!(status.state, SyncState::Idle);
    assert_eq!(status.error_message, None);
    assert!(manager.get_type_status(SyncDataType::Settings).unwrap().last_sync.is_some());
    assert!(manager.get_type_status(SyncDataType::OpenTabs).unwrap().last_sync.is_some());
    // Enabled but not registered: not covered.
    assert!(manager.get_type_status(SyncDataType::Bookmarks).unwrap().last_sync.is_none());
}

#[test]
fn manager_sync_with_no_types_and_no_sources_touches_no_type() {
    let mut manager = SyncManager::new();
    manager.login(make_account(), make_credentials(), "pw").unwrap();
    let result = manager.sync(Vec::new()).unwrap();
    assert!(result.success);
    assert_eq!(manager.get_sync_status().error_message, None);
    assert!(manager.get_type_status(SyncDataType::Bookmarks).unwrap().last_sync.is_none());
}
