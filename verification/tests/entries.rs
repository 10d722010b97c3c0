use password_out::entries::{add_entry, list_entries, remove_entry};
use password_out::vault::format::{VaultEntry, VaultPayload, VaultSettings};

fn add(
    payload: &mut VaultPayload,
    domain: &str,
    username: &str,
    hotkey: &str,
    secret: &str,
    expires_on: Option<&str>,
) -> Result<(), String> {
    add_entry(
        payload,
        domain.to_string(),
        username.to_string(),
        hotkey.to_string(),
        secret.to_string(),
        expires_on.map(str::to_string),
    )
}

#[test]
fn adds_and_lists_entries() {
    let mut payload = VaultPayload::default();

    add_entry(
        &mut payload,
        "domain".to_string(),
        "admin01".to_string(),
        "CTRL+ALT+1".to_string(),
        "example-password".to_string(),
        Some("2026-08-15".to_string()),
    )
    .expect("entry should be added");

    assert_eq!(
        list_entries(&payload),
        vec![("domain", "admin01", "CTRL+ALT+1", Some("2026-08-15"))]
    );
    assert!(!uuid::Uuid::from_bytes(payload.entries[0].id).is_nil());
}

#[test]
fn rejects_invalid_expiration_format() {
    let mut payload = VaultPayload::default();

    let error = add_entry(
        &mut payload,
        "domain".to_string(),
        "admin01".to_string(),
        "CTRL+ALT+1".to_string(),
        "example-password".to_string(),
        Some("08/15/2026".to_string()),
    )
    .expect_err("invalid expiration should be rejected");

    assert!(error.contains("YYYY-MM-DD"));
    assert!(payload.entries.is_empty());
}

#[test]
fn rejects_impossible_expiration_date() {
    let mut payload = VaultPayload::default();

    let error = add_entry(
        &mut payload,
        "domain".to_string(),
        "admin01".to_string(),
        "CTRL+ALT+1".to_string(),
        "example-password".to_string(),
        Some("2026-02-30".to_string()),
    )
    .expect_err("impossible expiration should be rejected");

    assert!(error.contains("invalid"));
    assert!(payload.entries.is_empty());
}

#[test]
fn allows_entry_without_expiration() {
    let mut payload = VaultPayload::default();

    add_entry(
        &mut payload,
        "domain".to_string(),
        "admin01".to_string(),
        "CTRL+ALT+1".to_string(),
        "example-password".to_string(),
        None,
    )
    .expect("entry without expiration should be allowed");

    assert_eq!(payload.entries[0].expires_on, None);
}

#[test]
fn rejects_duplicate_domain_and_username_combination() {
    let mut payload = VaultPayload::default();

    add_entry(
        &mut payload,
        "CORP".to_string(),
        "admin01".to_string(),
        "CTRL+ALT+1".to_string(),
        "first".to_string(),
        None,
    )
    .expect("first entry should be added");

    assert!(add_entry(
        &mut payload,
        "corp".to_string(),
        "ADMIN01".to_string(),
        "CTRL+ALT+2".to_string(),
        "second".to_string(),
        None,
    )
    .is_err());

    add_entry(
        &mut payload,
        "LAB".to_string(),
        "admin01".to_string(),
        "CTRL+ALT+2".to_string(),
        "third".to_string(),
        None,
    )
    .expect("same username in another domain should be allowed");
}

#[test]
fn rejects_duplicate_hotkeys() {
    let mut payload = VaultPayload::default();

    add_entry(
        &mut payload,
        "CORP".to_string(),
        "admin01".to_string(),
        "CTRL+ALT+1".to_string(),
        "first".to_string(),
        None,
    )
    .expect("first entry should be added");

    assert!(add_entry(
        &mut payload,
        "LAB".to_string(),
        "admin02".to_string(),
        "ctrl+alt+1".to_string(),
        "second".to_string(),
        None,
    )
    .is_err());
}

#[test]
fn removes_entries_by_domain_and_username() {
    let id = uuid::Uuid::new_v4().into_bytes();
    let mut payload = VaultPayload {
        settings: VaultSettings::default(),
        entries: vec![VaultEntry {
            id,
            domain: "CORP".to_string(),
            username: "admin01".to_string(),
            hotkey: "CTRL+ALT+1".to_string(),
            secret: "example-secret".to_string(),
            expires_on: None,
        }],
    };

    let removed = remove_entry(&mut payload, "corp", "ADMIN01").expect("entry should be removed");

    assert_eq!(removed.id, id);
    assert_eq!(removed.domain, "CORP");
    assert_eq!(removed.username, "admin01");
    assert_eq!(removed.hotkey, "CTRL+ALT+1");
    assert_eq!(removed.secret, "example-secret");
    assert!(payload.entries.is_empty());
}

#[test]
fn entries_are_kept_sorted_by_lowercased_domain_then_username() {
    let mut payload = VaultPayload::default();
    add(&mut payload, "lab", "zed", "CTRL+1", "s1", None).unwrap();
    add(&mut payload, "Corp", "bob", "CTRL+2", "s2", None).unwrap();
    add(&mut payload, "corp", "Alice", "CTRL+3", "s3", None).unwrap();
    add(&mut payload, "LAB", "adam", "CTRL+4", "s4", None).unwrap();

    let order: Vec<(&str, &str)> = payload
        .entries
        .iter()
        .map(|entry| (entry.domain.as_str(), entry.username.as_str()))
        .collect();
    assert_eq!(
        order,
        vec![("corp", "Alice"), ("Corp", "bob"), ("LAB", "adam"), ("lab", "zed")]
    );
}

#[test]
fn refused_entry_reports_each_problem_in_order() {
    let mut payload = VaultPayload::default();
    assert_eq!(
        add(&mut payload, "  ", "user", "CTRL+1", "s", None),
        Err("entry domain cannot be empty".to_string())
    );
    assert_eq!(
        add(&mut payload, "dom\nx", "user", "CTRL+1", "s", None),
        Err("entry domain cannot contain line breaks".to_string())
    );
    assert_eq!(
        add(&mut payload, "dom", "", "CTRL+1", "s", None),
        Err("entry username cannot be empty".to_string())
    );
    assert_eq!(
        add(&mut payload, "dom", "user\r", "CTRL+1", "s", None),
        Err("entry username cannot contain line breaks".to_string())
    );
    assert_eq!(
        add(&mut payload, "dom", "user", "\t", "s", None),
        Err("entry hotkey cannot be empty".to_string())
    );
    assert_eq!(
        add(&mut payload, "dom", "user", "CTRL+1\n", "s", None),
        Err("entry hotkey cannot contain line breaks".to_string())
    );
    assert_eq!(
        add(&mut payload, "dom", "user", "CTRL+1", "", None),
        Err("entry secret cannot be empty".to_string())
    );
    assert!(payload.entries.is_empty());

    add(&mut payload, "dom", "user", "CTRL+1", "s", None).unwrap();
    assert_eq!(
        add(&mut payload, "DOM", "USER", "CTRL+2", "s", None),
        Err("an entry for 'DOM\\USER' already exists".to_string())
    );
    assert_eq!(
        add(&mut payload, "other", "user", "ctrl+1", "s", None),
        Err("hotkey 'ctrl+1' is already assigned".to_string())
    );
    assert_eq!(payload.entries.len(), 1);
}

#[test]
fn removing_a_missing_entry_leaves_the_payload_unchanged() {
    let mut payload = VaultPayload::default();
    add(&mut payload, "dom", "user", "CTRL+1", "s", Some("2030-01-01")).unwrap();

    let error = remove_entry(&mut payload, "dom", "someone").expect_err("nothing to remove");
    assert_eq!(error, "entry 'dom\\someone' was not found");
    assert_eq!(payload.entries.len(), 1);

    let removed = remove_entry(&mut payload, "DOM", "USER").expect("entry should be removed");
    assert_eq!(removed.expires_on.as_deref(), Some("2030-01-01"));
    assert!(list_entries(&payload).is_empty());
}

#[test]
fn new_entries_get_random_version_4_ids() {
    let mut payload = VaultPayload::default();
    add(&mut payload, "domain", "first", "CTRL+ALT+1", "one", None).unwrap();
    add(&mut payload, "domain", "second", "CTRL+ALT+2", "two", None).unwrap();
    for entry in &payload.entries {
        let id = uuid::Uuid::from_bytes(entry.id);
        assert_eq!(id.get_version_num(), 4);
        assert_eq!(id.get_variant(), uuid::Variant::RFC4122);
        assert_eq!(entry.id[6] >> 4, 4);
        assert_eq!(entry.id[8] >> 6, 2);
    }
    assert_ne!(payload.entries[0].id, payload.entries[1].id);
}
