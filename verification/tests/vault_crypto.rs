use password_out::vault::crypto::{
    create_password_wrapper, decrypt_payload, decrypt_payload_with_key, encrypt_payload,
    encrypt_payload_with_key, generate_vault_key, unwrap_key_with_password,
};
use password_out::vault::format::{VaultEnvelope, VaultUnlockMethod, VAULT_FORMAT_VERSION_V2};
use password_out::vault::service::{
    initialize_password_vault, load_password_vault, recover_vault_with_backup_password,
    save_password_vault, save_vault,
};

fn sample_payload() -> Vec<u8> {
    br#"{"settings":{"clipboard_clear_seconds":30},"entries":[{"id":"0b1c2d3e-4f50-4617-8899-aabbccddeeff","domain":"domain","username":"admin01","hotkey":"CTRL+ALT+1","secret":"example-password","expires_on":null}]}"#.to_vec()
}

#[test]
fn encrypts_new_password_vault_as_version_2() {
    let envelope = encrypt_payload(&sample_payload(), "correct horse battery staple")
        .expect("encryption should succeed");

    match envelope {
        VaultEnvelope::V2(envelope) => {
            assert_eq!(envelope.version, VAULT_FORMAT_VERSION_V2);

            assert!(matches!(envelope.unlock, VaultUnlockMethod::Password { .. }));
        }

        VaultEnvelope::V1(_) => {
            panic!("new vault unexpectedly used version 1")
        }
    }
}

#[test]
fn encrypts_and_decrypts_password_vault() {
    let payload = sample_payload();

    let envelope = encrypt_payload(&payload, "correct horse battery staple")
        .expect("encryption should succeed");

    let decrypted = decrypt_payload(&envelope, "correct horse battery staple")
        .expect("decryption should succeed");

    assert_eq!(decrypted, payload);
}

#[test]
fn rejects_incorrect_master_password() {
    let envelope =
        encrypt_payload(&sample_payload(), "correct-password").expect("encryption should succeed");

    let result = decrypt_payload(&envelope, "wrong-password");

    assert!(result.is_err());
}

#[test]
fn detects_tampered_v2_payload_ciphertext() {
    let mut envelope =
        encrypt_payload(&sample_payload(), "correct-password").expect("encryption should succeed");

    match &mut envelope {
        VaultEnvelope::V2(version_2) => {
            version_2.cipher.ciphertext.push('A');
        }

        VaultEnvelope::V1(_) => {
            panic!("expected version-2 vault");
        }
    }

    let result = decrypt_payload(&envelope, "correct-password");

    assert!(result.is_err());
}

#[test]
fn password_wrapper_round_trip() {
    let vault_key = generate_vault_key();

    let wrapper = create_password_wrapper(&vault_key, "recovery-password")
        .expect("wrapper creation should succeed");

    let recovered = unwrap_key_with_password(&wrapper, "recovery-password")
        .expect("wrapper unlock should succeed");

    assert_eq!(recovered, vault_key);
}

#[test]
fn wrong_password_and_empty_password_are_refused_with_their_messages() {
    let envelope = encrypt_payload(b"{}", "right").unwrap();
    assert_eq!(
        decrypt_payload(&envelope, "wrong"),
        Err("unable to unlock vault key: incorrect password or damaged wrapper".to_string())
    );
    assert_eq!(
        decrypt_payload(&envelope, ""),
        Err("master password cannot be empty".to_string())
    );
    assert_eq!(
        encrypt_payload(b"{}", "").unwrap_err(),
        "master password cannot be empty"
    );
    assert_eq!(
        create_password_wrapper(&[7u8; 32], "").unwrap_err(),
        "password cannot be empty"
    );
}

#[test]
fn payload_key_round_trip_and_wrong_key() {
    let key = generate_vault_key();
    let cipher = encrypt_payload_with_key(b"payload bytes", &key).unwrap();
    assert_eq!(cipher.algorithm, "xchacha20poly1305");
    assert_eq!(decrypt_payload_with_key(&cipher, &key).unwrap(), b"payload bytes".to_vec());
    let mut other = key;
    other[0] ^= 0xFF;
    assert_eq!(
        decrypt_payload_with_key(&cipher, &other),
        Err("unable to decrypt vault: incorrect key or damaged vault".to_string())
    );
}

#[test]
fn refuses_to_overwrite_existing_vault() {
    let password = "correct horse battery staple";
    let created = initialize_password_vault("vault.json", false, br#"{"entries":[]}"#, password);
    assert!(created.is_ok());

    let result = initialize_password_vault("vault.json", true, br#"{"entries":[]}"#, password);

    assert_eq!(result.unwrap_err(), "vault already exists at 'vault.json'");
}

#[test]
fn compatibility_functions_use_password_mode() {
    let password = "correct horse battery staple";
    let envelope = initialize_password_vault("vault.json", false, b"{}", password).unwrap();
    let payload = load_password_vault(&envelope, password).expect("password vault load should succeed");
    assert_eq!(payload, b"{}".to_vec());
    save_vault(&envelope, &payload, password).expect("compatibility save should succeed");
}

#[test]
fn password_vault_save_then_load_gives_the_new_payload() {
    let password = "correct horse battery staple";
    let envelope = initialize_password_vault("vault.json", false, b"{}", password).unwrap();
    let resaved = save_password_vault(&envelope, b"[1]", password).unwrap();
    assert_eq!(load_password_vault(&resaved, password).unwrap(), b"[1]".to_vec());
}

#[test]
fn password_vault_has_no_backup_recovery() {
    let envelope = initialize_password_vault("vault.json", false, b"{}", "pw").unwrap();
    assert_eq!(
        recover_vault_with_backup_password(&envelope, "pw"),
        Err("this vault uses normal password protection and does not require recovery".to_string())
    );
}

#[test]
fn argon2_bounds_are_checked_per_wrapper() {
    let mut envelope = password_out::vault::service::initialize_password_vault("vault.json", false, b"{}", "master").unwrap();
    assert!(password_out::vault::service::check_envelope_callable(&envelope));
    assert!(password_out::vault::service::check_backup_callable(&envelope));
    if let password_out::vault::format::VaultEnvelope::V2(version_2) = &mut envelope {
        if let password_out::vault::format::VaultUnlockMethod::Password { wrapper } = &mut version_2.unlock {
            wrapper.kdf.parallelism = 0x2000_0000;
        }
    }
    assert!(!password_out::vault::service::check_envelope_callable(&envelope));
    assert!(password_out::vault::service::check_backup_callable(&envelope));
}
