use password_out::vault::access::{InMemoryVaultAccess, VaultAccess};
use password_out::vault::certificate_vault::check_session_path;
use password_out::vault::entry_ops::{
    add_entry_with_access, list_entries_with_access, remove_entry_with_access,
};
use password_out::vault::format::{VaultEntry, VaultPayload, VaultSettings};

fn test_path() -> &'static str {
    "unused-vault.json"
}

fn test_payload() -> VaultPayload {
    VaultPayload {
        settings: VaultSettings::default(),
        entries: vec![VaultEntry {
            id: uuid::Uuid::new_v4().into_bytes(),
            domain: "domain".to_string(),
            username: "GitHub".to_string(),
            hotkey: "CTRL+ALT+G".to_string(),
            secret: "test-secret".to_string(),
            expires_on: None,
        }],
    }
}

fn payload_with_entry() -> VaultPayload {
    VaultPayload {
        settings: VaultSettings::default(),
        entries: vec![VaultEntry {
            id: uuid::Uuid::new_v4().into_bytes(),
            domain: "domain".to_string(),
            username: "GitHub".to_string(),
            hotkey: "CTRL+ALT+G".to_string(),
            secret: "github-secret".to_string(),
            expires_on: Some("2026-08-15".to_string()),
        }],
    }
}

#[test]
fn in_memory_access_loads_payload() {
    let mut access = InMemoryVaultAccess::new(test_payload());

    let loaded = access.load(test_path()).expect("in-memory vault should load");

    assert_eq!(loaded.entries.len(), 1);
    assert_eq!(loaded.entries[0].username, "GitHub");
    assert_eq!(access.load_count(), 1);
    assert_eq!(access.save_count(), 0);
}

#[test]
fn in_memory_access_saves_payload() {
    let mut access = InMemoryVaultAccess::default();

    let payload = test_payload();

    access.save(test_path(), &payload).expect("in-memory vault should save");

    assert_eq!(access.payload(), &payload);
    assert_eq!(access.load_count(), 0);
    assert_eq!(access.save_count(), 1);
}

#[test]
fn in_memory_access_can_fail_next_load() {
    let mut access = InMemoryVaultAccess::default();

    access.fail_next_load("simulated load failure");

    let error = access.load(test_path()).expect_err("load should fail");

    assert_eq!(error, "simulated load failure");
    assert_eq!(access.load_count(), 1);

    access.load(test_path()).expect("only the next load should fail");
}

#[test]
fn in_memory_access_can_fail_next_save() {
    let mut access = InMemoryVaultAccess::default();

    access.fail_next_save("simulated save failure");

    let error = access.save(test_path(), &test_payload()).expect_err("save should fail");

    assert_eq!(error, "simulated save failure");
    assert_eq!(access.save_count(), 1);
    assert!(access.payload().entries.is_empty());

    access.save(test_path(), &test_payload()).expect("only the next save should fail");
}

#[test]
fn add_entry_loads_and_saves_once() {
    let mut access = InMemoryVaultAccess::default();

    add_entry_with_access(
        test_path(),
        &mut access,
        "domain".to_string(),
        "GitLab".to_string(),
        "CTRL+ALT+L".to_string(),
        "gitlab-secret".to_string(),
        Some("2026-09-01".to_string()),
    )
    .expect("entry should be added");

    assert_eq!(access.load_count(), 1);
    assert_eq!(access.save_count(), 1);
    assert_eq!(access.payload().entries.len(), 1);

    let entry = &access.payload().entries[0];
    assert!(!uuid::Uuid::from_bytes(entry.id).is_nil());
    assert_eq!(entry.domain, "domain");
    assert_eq!(entry.username, "GitLab");
    assert_eq!(entry.hotkey, "CTRL+ALT+L");
    assert_eq!(entry.secret, "gitlab-secret");
    assert_eq!(entry.expires_on.as_deref(), Some("2026-09-01"));
}

#[test]
fn add_entry_does_not_save_when_load_fails() {
    let mut access = InMemoryVaultAccess::default();
    access.fail_next_load("simulated load failure");

    let error = add_entry_with_access(
        test_path(),
        &mut access,
        "domain".to_string(),
        "GitLab".to_string(),
        "CTRL+ALT+L".to_string(),
        "gitlab-secret".to_string(),
        None,
    )
    .expect_err("add should fail");

    assert_eq!(error, "simulated load failure");
    assert_eq!(access.load_count(), 1);
    assert_eq!(access.save_count(), 0);
    assert!(access.payload().entries.is_empty());
}

#[test]
fn add_entry_reports_save_failure() {
    let mut access = InMemoryVaultAccess::default();
    access.fail_next_save("simulated save failure");

    let error = add_entry_with_access(
        test_path(),
        &mut access,
        "domain".to_string(),
        "GitLab".to_string(),
        "CTRL+ALT+L".to_string(),
        "gitlab-secret".to_string(),
        None,
    )
    .expect_err("add should fail");

    assert_eq!(error, "simulated save failure");
    assert_eq!(access.load_count(), 1);
    assert_eq!(access.save_count(), 1);

    assert!(access.payload().entries.is_empty());
}

#[test]
fn list_entries_returns_only_non_secret_metadata() {
    let mut access = InMemoryVaultAccess::new(payload_with_entry());

    let entries = list_entries_with_access(test_path(), &mut access).expect("entries should load");

    assert_eq!(
        entries,
        vec![(
            "domain".to_string(),
            "GitHub".to_string(),
            "CTRL+ALT+G".to_string(),
            Some("2026-08-15".to_string()),
        )]
    );

    assert_eq!(access.load_count(), 1);
    assert_eq!(access.save_count(), 0);
}

#[test]
fn remove_entry_loads_and_saves_once() {
    let mut access = InMemoryVaultAccess::new(payload_with_entry());

    let removed = remove_entry_with_access(test_path(), &mut access, "DOMAIN", "github")
        .expect("entry should be removed");

    assert_eq!(
        removed,
        ("domain".to_string(), "GitHub".to_string(), "CTRL+ALT+G".to_string())
    );

    assert_eq!(access.load_count(), 1);
    assert_eq!(access.save_count(), 1);
    assert!(access.payload().entries.is_empty());
}

#[test]
fn remove_missing_entry_does_not_save() {
    let mut access = InMemoryVaultAccess::new(payload_with_entry());

    let error = remove_entry_with_access(test_path(), &mut access, "domain", "Missing")
        .expect_err("remove should fail");

    assert_eq!(error, "entry 'domain\\Missing' was not found");
    assert_eq!(access.load_count(), 1);
    assert_eq!(access.save_count(), 0);
    assert_eq!(access.payload().entries.len(), 1);
}

#[test]
fn refused_entry_is_not_saved_through_a_store() {
    let mut access = InMemoryVaultAccess::new(payload_with_entry());
    let error = add_entry_with_access(
        test_path(),
        &mut access,
        "DOMAIN".to_string(),
        "github".to_string(),
        "CTRL+ALT+X".to_string(),
        "s".to_string(),
        None,
    )
    .expect_err("the account already exists");
    assert_eq!(error, "an entry for 'DOMAIN\\github' already exists");
    assert_eq!(access.load_count(), 1);
    assert_eq!(access.save_count(), 0);
}

#[test]
fn failed_load_stops_listing_and_failed_save_stops_removal() {
    let mut access = InMemoryVaultAccess::new(payload_with_entry());
    access.fail_next_load("offline");
    assert_eq!(list_entries_with_access(test_path(), &mut access), Err("offline".to_string()));

    access.fail_next_save("disk full");
    assert_eq!(
        remove_entry_with_access(test_path(), &mut access, "domain", "GitHub"),
        Err("disk full".to_string())
    );
    assert_eq!(access.payload().entries.len(), 1);
    assert_eq!(access.load_count(), 2);
    assert_eq!(access.save_count(), 1);
}

#[test]
fn in_memory_store_gives_back_the_last_saved_payload() {
    let mut access = InMemoryVaultAccess::default();
    let mut payload = access.payload().clone();
    payload.settings.clipboard_clear_seconds = 45;
    access.save("vault.json", &payload).unwrap();
    assert_eq!(access.load("vault.json").unwrap(), payload);

    let mut other = payload.clone();
    other.settings.clipboard_clear_seconds = 50;
    access.fail_next_save("disk full");
    assert_eq!(access.save("vault.json", &other), Err("disk full".to_string()));
    assert_eq!(access.load("vault.json").unwrap(), payload);
}

#[test]
fn certificate_session_saves_only_where_it_was_opened() {
    assert_eq!(
        check_session_path(None, "vault.json"),
        Err("certificate vault must be loaded before it can be saved".to_string())
    );
    assert_eq!(
        check_session_path(Some("a.json"), "b.json"),
        Err("certificate session was opened for 'a.json' but save requested 'b.json'".to_string())
    );
    assert_eq!(check_session_path(Some("a.json"), "a.json"), Ok(()));
}
