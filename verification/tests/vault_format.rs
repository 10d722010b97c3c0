use password_out::certificate::identity::CertificateIdentity;
use password_out::certificate::key_wrap::KeyWrapAlgorithm;
use password_out::vault::format::{
    CacKeyWrapper, CertificateBackend, CertificateKeyWrapper, CipherPayload, KdfParameters,
    PasswordKeyWrapper, VaultEntry, VaultEnvelope, VaultEnvelopeV1, VaultEnvelopeV2, VaultPayload,
    VaultSettings, VaultUnlockMethod, CAC_KEY_MANAGEMENT_SLOT, CAC_WRAP_ALGORITHM_RSA_OAEP_SHA256,
    CIPHER_ALGORITHM, DEFAULT_CLIPBOARD_CLEAR_SECONDS, KDF_ALGORITHM, MAX_CLIPBOARD_CLEAR_SECONDS,
    VAULT_FORMAT_VERSION_V1, VAULT_FORMAT_VERSION_V2,
};
use password_out::vault::info::vault_info_lines;

fn test_kdf() -> KdfParameters {
    KdfParameters {
        algorithm: KDF_ALGORITHM.to_string(),
        memory_kib: 65_536,
        iterations: 3,
        parallelism: 1,
        salt: "salt".to_string(),
    }
}

fn test_cipher() -> CipherPayload {
    CipherPayload {
        algorithm: CIPHER_ALGORITHM.to_string(),
        nonce: "nonce".to_string(),
        ciphertext: "ciphertext".to_string(),
    }
}

fn test_certificate_identity() -> CertificateIdentity {
    CertificateIdentity {
        sha256_fingerprint: "AA:BB:CC:DD".to_string(),
        subject: "CN=PasswordOut Test".to_string(),
        issuer: "CN=PasswordOut Test".to_string(),
        serial_number: "01".to_string(),
        not_before: "Jun 24 00:00:00 2026 GMT".to_string(),
        not_after: "Jun 24 00:00:00 2031 GMT".to_string(),
    }
}

fn entry(username: &str, hotkey: &str) -> VaultEntry {
    VaultEntry {
        id: uuid::Uuid::new_v4().into_bytes(),
        domain: "domain".to_string(),
        username: username.to_string(),
        hotkey: hotkey.to_string(),
        secret: "example".to_string(),
        expires_on: None,
    }
}

#[test]
fn payload_can_find_entries() {
    let payload = VaultPayload {
        settings: VaultSettings::default(),
        entries: vec![entry("admin01", "CTRL+ALT+1")],
    };

    assert!(payload.contains_name("admin01"));

    assert_eq!(
        payload.find_entry("admin01").map(|entry| entry.hotkey.as_str()),
        Some("CTRL+ALT+1")
    );

    assert!(!payload.contains_name("missing"));
}

#[test]
fn payload_settings_validate_timeout_range() {
    let mut settings = VaultSettings::default();
    assert!(settings.validate().is_ok());

    settings.clipboard_clear_seconds = 0;
    assert!(settings.validate().is_err());

    settings.clipboard_clear_seconds = MAX_CLIPBOARD_CLEAR_SECONDS + 1;
    assert!(settings.validate().is_err());
}

#[test]
fn default_payload_is_empty_with_default_timeout() {
    let payload = VaultPayload::default();
    assert!(payload.entries.is_empty());
    assert_eq!(payload.settings.clipboard_clear_seconds, DEFAULT_CLIPBOARD_CLEAR_SECONDS);
    assert!(payload.validate().is_ok());
}

#[test]
fn version_1_envelope_remains_valid() {
    let envelope = VaultEnvelope::V1(VaultEnvelopeV1 {
        version: VAULT_FORMAT_VERSION_V1,
        kdf: test_kdf(),
        cipher: test_cipher(),
    });

    assert_eq!(envelope.version(), VAULT_FORMAT_VERSION_V1);
    assert!(envelope.validate().is_ok());
}

#[test]
fn version_2_password_envelope_is_valid() {
    let envelope = VaultEnvelope::V2(VaultEnvelopeV2 {
        version: VAULT_FORMAT_VERSION_V2,
        unlock: VaultUnlockMethod::Password {
            wrapper: PasswordKeyWrapper { kdf: test_kdf(), cipher: test_cipher() },
        },
        cipher: test_cipher(),
    });

    assert_eq!(envelope.version(), VAULT_FORMAT_VERSION_V2);
    assert!(envelope.validate().is_ok());
}

#[test]
fn legacy_version_2_cac_envelope_remains_valid() {
    let envelope = VaultEnvelope::V2(VaultEnvelopeV2 {
        version: VAULT_FORMAT_VERSION_V2,
        unlock: VaultUnlockMethod::Cac {
            cac_wrapper: CacKeyWrapper {
                slot: CAC_KEY_MANAGEMENT_SLOT.to_string(),
                certificate_sha256: "sha256-fingerprint".to_string(),
                algorithm: CAC_WRAP_ALGORITHM_RSA_OAEP_SHA256.to_string(),
                wrapped_key: "wrapped-key".to_string(),
            },
            backup_wrapper: PasswordKeyWrapper { kdf: test_kdf(), cipher: test_cipher() },
        },
        cipher: test_cipher(),
    });

    assert!(envelope.validate().is_ok());
}

#[test]
fn legacy_cac_wrapper_rejects_wrong_slot() {
    let wrapper = CacKeyWrapper {
        slot: "9A".to_string(),
        certificate_sha256: "sha256-fingerprint".to_string(),
        algorithm: CAC_WRAP_ALGORITHM_RSA_OAEP_SHA256.to_string(),
        wrapped_key: "wrapped-key".to_string(),
    };

    assert!(wrapper.validate().is_err());
}

fn pfx_envelope() -> VaultEnvelope {
    VaultEnvelope::V2(VaultEnvelopeV2 {
        version: VAULT_FORMAT_VERSION_V2,
        unlock: VaultUnlockMethod::Certificate {
            certificate_wrapper: CertificateKeyWrapper {
                backend: CertificateBackend::Pfx {
                    suggested_filename: Some("password-out-vault.pfx".to_string()),
                },
                identity: test_certificate_identity(),
                algorithm: KeyWrapAlgorithm::RsaOaepSha256,
                wrapped_key: "wrapped-key".to_string(),
            },
            backup_wrapper: PasswordKeyWrapper { kdf: test_kdf(), cipher: test_cipher() },
        },
        cipher: test_cipher(),
    })
}

#[test]
fn version_2_pfx_certificate_envelope_is_valid() {
    assert!(pfx_envelope().validate().is_ok());
}

#[test]
fn generic_certificate_wrapper_supports_cac_backend() {
    let wrapper = CertificateKeyWrapper {
        backend: CertificateBackend::Cac { slot: CAC_KEY_MANAGEMENT_SLOT.to_string() },
        identity: test_certificate_identity(),
        algorithm: KeyWrapAlgorithm::RsaOaepSha256,
        wrapped_key: "wrapped-key".to_string(),
    };

    assert!(wrapper.validate().is_ok());
}

#[test]
fn generic_certificate_wrapper_rejects_wrong_cac_slot() {
    let wrapper = CertificateKeyWrapper {
        backend: CertificateBackend::Cac { slot: "9A".to_string() },
        identity: test_certificate_identity(),
        algorithm: KeyWrapAlgorithm::RsaOaepSha256,
        wrapped_key: "wrapped-key".to_string(),
    };

    assert!(wrapper.validate().is_err());
}

#[test]
fn generic_certificate_wrapper_rejects_empty_pfx_filename_hint() {
    let wrapper = CertificateKeyWrapper {
        backend: CertificateBackend::Pfx { suggested_filename: Some("   ".to_string()) },
        identity: test_certificate_identity(),
        algorithm: KeyWrapAlgorithm::RsaOaepSha256,
        wrapped_key: "wrapped-key".to_string(),
    };

    assert!(wrapper.validate().is_err());
}

#[test]
fn envelope_validation_rejects_unknown_version() {
    let envelope = VaultEnvelope::V1(VaultEnvelopeV1 {
        version: 99,
        kdf: test_kdf(),
        cipher: test_cipher(),
    });

    assert!(envelope.validate().is_err());
}

#[test]
fn validation_messages_name_the_problem() {
    let envelope = VaultEnvelope::V1(VaultEnvelopeV1 {
        version: 99,
        kdf: test_kdf(),
        cipher: test_cipher(),
    });
    assert_eq!(
        envelope.validate(),
        Err("invalid version-1 vault format value 99; expected 1".to_string())
    );
    let mut kdf = test_kdf();
    kdf.iterations = 0;
    assert_eq!(
        kdf.validate("vault KDF"),
        Err("vault KDF iterations must be greater than zero".to_string())
    );
    let wrapper = CacKeyWrapper {
        slot: "9A".to_string(),
        certificate_sha256: "sha".to_string(),
        algorithm: CAC_WRAP_ALGORITHM_RSA_OAEP_SHA256.to_string(),
        wrapped_key: "k".to_string(),
    };
    assert_eq!(
        wrapper.validate(),
        Err("unsupported CAC slot '9A'; expected 9D".to_string())
    );
}

#[test]
fn info_report_describes_a_certificate_vault() {
    let lines = vault_info_lines(&pfx_envelope(), "/tmp/vault.json").unwrap();
    assert_eq!(
        lines,
        vec![
            "PasswordOut vault information:",
            "  Path: /tmp/vault.json",
            "  Format version: 2",
            "  Payload cipher: xchacha20poly1305",
            "  Unlock method: X.509 certificate",
            "  Certificate backend: Software PFX",
            "  Suggested PFX: password-out-vault.pfx",
            "  Key-wrap algorithm: rsa-oaep-sha256",
            "  Certificate subject: CN=PasswordOut Test",
            "  Certificate issuer: CN=PasswordOut Test",
            "  Certificate serial: 01",
            "  Certificate SHA-256: AA:BB:CC:DD",
            "  Certificate valid from: Jun 24 00:00:00 2026 GMT",
            "  Certificate valid until: Jun 24 00:00:00 2031 GMT",
            "  Backup recovery: Configured",
            "  Backup KDF: argon2id",
            "  Entry count: Encrypted; unlock the vault to inspect entries",
        ]
    );
}

#[test]
fn info_report_refuses_an_invalid_vault_and_describes_version_1() {
    let invalid = VaultEnvelope::V1(VaultEnvelopeV1 { version: 7, kdf: test_kdf(), cipher: test_cipher() });
    assert!(vault_info_lines(&invalid, "v.json").is_err());
    let version_1 = VaultEnvelope::V1(VaultEnvelopeV1 {
        version: VAULT_FORMAT_VERSION_V1,
        kdf: test_kdf(),
        cipher: test_cipher(),
    });
    let lines = vault_info_lines(&version_1, "v.json").unwrap();
    assert_eq!(lines[2], "  Format version: 1");
    assert_eq!(lines[3], "  Unlock method: Master password");
    assert_eq!(lines[6], "  Backup recovery: Not configured");
    assert_eq!(lines.len(), 8);
}

#[test]
fn clipboard_timeout_is_stored_only_within_range() {
    let mut payload = VaultPayload::default();
    assert_eq!(payload.settings.clipboard_clear_seconds, DEFAULT_CLIPBOARD_CLEAR_SECONDS);

    assert_eq!(payload.set_clipboard_clear_seconds(5), Ok(()));
    assert_eq!(payload.settings.clipboard_clear_seconds, 5);

    assert_eq!(
        payload.set_clipboard_clear_seconds(0),
        Err("clipboard clear timeout must be between 1 and 86400 seconds".to_string())
    );
    assert_eq!(
        payload.set_clipboard_clear_seconds(MAX_CLIPBOARD_CLEAR_SECONDS + 1),
        Err("clipboard clear timeout must be between 1 and 86400 seconds".to_string())
    );
    assert_eq!(payload.settings.clipboard_clear_seconds, 5);
    assert_eq!(payload.set_clipboard_clear_seconds(MAX_CLIPBOARD_CLEAR_SECONDS), Ok(()));
    assert_eq!(payload.settings.clipboard_clear_seconds, MAX_CLIPBOARD_CLEAR_SECONDS);
}
