use openssl::asn1::Asn1Time;
use openssl::bn::BigNum;
use openssl::encrypt::Decrypter;
use openssl::hash::MessageDigest;
use openssl::pkey::{PKey, Private};
use openssl::rsa::{Padding, Rsa};
use openssl::x509::{X509NameBuilder, X509};

use password_out::certificate::cac::{cac_unwrap_request, cac_unwrapped_key, CacCertificateSource};
use password_out::certificate::identity::{
    certificate_identity_from_der, check_fingerprint, hex_upper, verify_certificate_identity,
    CertificateIdentity,
};
use password_out::certificate::key_wrap::{wrap_key_with_certificate, KeyWrapAlgorithm};
use password_out::certificate::provider::{CertificatePrivateKey, CertificateSource};
use password_out::vault::certificate_vault::{
    initialize_certificate_vault, load_certificate_vault, open_certificate_vault_session,
    certificate_envelope, recover_rotation_key, rotate_certificate_with_backup_password,
    save_certificate_vault_session,
    unwrap_key_for_identity, unwrap_key_with_provider,
};
use password_out::vault::format::{CertificateBackend, VaultEnvelope, VaultUnlockMethod};
use password_out::vault::service::{initialize_password_vault, recover_vault_with_backup_password};

struct TestProvider {
    certificate_der: Vec<u8>,
    private_key: PKey<Private>,
    unwrap_requests: usize,
}

impl CertificateSource for TestProvider {
    fn certificate_der(&self) -> Result<Vec<u8>, String> {
        Ok(self.certificate_der.clone())
    }
}

impl CertificatePrivateKey for TestProvider {
    fn unwrap_key(&mut self, _algorithm: KeyWrapAlgorithm, wrapped_key: &[u8]) -> Result<Vec<u8>, String> {
        self.unwrap_requests += 1;
        let mut decrypter = Decrypter::new(&self.private_key).map_err(|e| e.to_string())?;
        decrypter.set_rsa_padding(Padding::PKCS1_OAEP).map_err(|e| e.to_string())?;
        decrypter.set_rsa_oaep_md(MessageDigest::sha256()).map_err(|e| e.to_string())?;
        decrypter.set_rsa_mgf1_md(MessageDigest::sha256()).map_err(|e| e.to_string())?;
        let length = decrypter.decrypt_len(wrapped_key).map_err(|e| e.to_string())?;
        let mut plaintext = vec![0u8; length];
        let written = decrypter.decrypt(wrapped_key, &mut plaintext).map_err(|e| e.to_string())?;
        plaintext.truncate(written);
        Ok(plaintext)
    }
}

fn create_provider(common_name: &str) -> TestProvider {
    let rsa = Rsa::generate(2048).expect("RSA key generation should succeed");
    let private_key = PKey::from_rsa(rsa).unwrap();
    let mut name = X509NameBuilder::new().unwrap();
    name.append_entry_by_text("CN", common_name).unwrap();
    let name = name.build();
    let mut builder = X509::builder().unwrap();
    builder.set_version(2).unwrap();
    let serial = BigNum::from_u32(4242).unwrap().to_asn1_integer().unwrap();
    builder.set_serial_number(&serial).unwrap();
    builder.set_subject_name(&name).unwrap();
    builder.set_issuer_name(&name).unwrap();
    builder.set_pubkey(&private_key).unwrap();
    builder.set_not_before(&Asn1Time::days_from_now(0).unwrap()).unwrap();
    builder.set_not_after(&Asn1Time::days_from_now(30).unwrap()).unwrap();
    builder.sign(&private_key, MessageDigest::sha256()).unwrap();
    let certificate = builder.build();
    TestProvider { certificate_der: certificate.to_der().unwrap(), private_key, unwrap_requests: 0 }
}

fn test_certificate(common_name: &str) -> Vec<u8> {
    create_provider(common_name).certificate_der
}

#[test]
fn certificate_source_returns_original_der() {
    let der = vec![0x30, 0x03, 0x01, 0x01, 0x00];

    let source =
        CacCertificateSource::new(der.clone()).expect("non-empty certificate should be accepted");

    assert_eq!(source.certificate_der().expect("certificate should be returned"), der);
}

#[test]
fn certificate_source_rejects_empty_der() {
    let result = CacCertificateSource::new(Vec::new());

    assert!(result.is_err());
}

#[test]
fn extracts_certificate_identity() {
    let certificate_der = test_certificate("PasswordOut Identity Test");

    let identity = certificate_identity_from_der(&certificate_der)
        .expect("certificate identity extraction should succeed");

    assert!(!identity.sha256_fingerprint.is_empty());
    assert!(identity.subject.contains("PasswordOut Identity Test"));
    assert!(identity.issuer.contains("PasswordOut Identity Test"));
    assert!(!identity.serial_number.is_empty());
    assert!(!identity.not_before.is_empty());
    assert!(!identity.not_after.is_empty());
    assert_eq!(identity.subject, "CN=PasswordOut Identity Test");
    assert_eq!(identity.serial_number, "1092");
    assert_eq!(identity.sha256_fingerprint.len(), 32 * 3 - 1);
}

#[test]
fn accepts_matching_certificate() {
    let certificate_der = test_certificate("PasswordOut Matching Certificate");

    let expected = certificate_identity_from_der(&certificate_der)
        .expect("certificate identity extraction should succeed");

    let actual = verify_certificate_identity(&expected, &certificate_der)
        .expect("matching certificate should be accepted");

    assert_eq!(actual.sha256_fingerprint, expected.sha256_fingerprint);
}

#[test]
fn rejects_different_certificate() {
    let expected_der = test_certificate("PasswordOut Expected Certificate");
    let actual_der = test_certificate("PasswordOut Different Certificate");

    let expected = certificate_identity_from_der(&expected_der)
        .expect("expected certificate identity should load");

    let result = verify_certificate_identity(&expected, &actual_der);

    assert!(result.is_err());
}

#[test]
fn fingerprints_are_colon_separated_upper_case_hex() {
    assert_eq!(hex_upper(&[0x0A, 0xFF, 0x00]), "0A:FF:00");
    assert_eq!(hex_upper(&[]), "");
    let identity = |fingerprint: &str| CertificateIdentity {
        sha256_fingerprint: fingerprint.to_string(),
        subject: String::new(),
        issuer: String::new(),
        serial_number: String::new(),
        not_before: String::new(),
        not_after: String::new(),
    };
    assert_eq!(
        check_fingerprint(&identity("AA"), identity("BB")),
        Err("certificate fingerprint mismatch: expected AA, received BB".to_string())
    );
    assert!(check_fingerprint(&identity("AA"), identity("AA")).is_ok());
}

#[test]
fn rejects_empty_plaintext_key() {
    let certificate_der = test_certificate("PasswordOut Empty Key");

    let result = wrap_key_with_certificate(&certificate_der, KeyWrapAlgorithm::RsaOaepSha256, &[]);

    assert!(result.is_err());
}

#[test]
fn unwraps_key_when_certificate_matches() {
    let mut provider = create_provider("PasswordOut Matching Provider");

    let certificate_der = provider.certificate_der().expect("certificate DER encoding should succeed");

    let identity = certificate_identity_from_der(&certificate_der)
        .expect("certificate identity extraction should succeed");

    let vault_key = [0x77_u8; 32];

    let wrapped_key =
        wrap_key_with_certificate(&certificate_der, KeyWrapAlgorithm::RsaOaepSha256, &vault_key)
            .expect("vault-key wrapping should succeed");

    let unwrapped =
        unwrap_key_with_provider(&mut provider, &identity, KeyWrapAlgorithm::RsaOaepSha256, &wrapped_key)
            .expect("vault-key unwrapping should succeed");

    assert_eq!(unwrapped.as_slice(), vault_key);
}

#[test]
fn rejects_provider_with_wrong_certificate() {
    let correct_provider = create_provider("PasswordOut Correct Provider");

    let correct_certificate_der =
        correct_provider.certificate_der().expect("certificate DER encoding should succeed");

    let expected_identity = certificate_identity_from_der(&correct_certificate_der)
        .expect("certificate identity extraction should succeed");

    let vault_key = [0x33_u8; 32];

    let wrapped_key = wrap_key_with_certificate(
        &correct_certificate_der,
        KeyWrapAlgorithm::RsaOaepSha256,
        &vault_key,
    )
    .expect("vault-key wrapping should succeed");

    let mut wrong_provider = create_provider("PasswordOut Wrong Provider");

    let result = unwrap_key_with_provider(
        &mut wrong_provider,
        &expected_identity,
        KeyWrapAlgorithm::RsaOaepSha256,
        &wrapped_key,
    );

    assert!(result.is_err());
}

fn pfx_backend() -> CertificateBackend {
    CertificateBackend::Pfx { suggested_filename: Some("test.pfx".to_string()) }
}

#[test]
fn initializes_and_unlocks_certificate_vault_with_pfx_provider() {
    let backup_password = "correct horse battery staple";
    let mut provider = create_provider("PasswordOut Vault Test");

    let envelope = initialize_certificate_vault(
        "vault.json",
        false,
        backup_password,
        &provider,
        pfx_backend(),
        br#"{"entries":[]}"#,
    )
    .expect("certificate vault should initialize");

    let (plaintext, session) =
        open_certificate_vault_session(envelope.clone(), &mut provider).expect("vault should open");
    assert_eq!(plaintext, br#"{"entries":[]}"#.to_vec());

    let saved = save_certificate_vault_session(b"[\"changed\"]", &session).expect("vault should save");
    assert_eq!(load_certificate_vault(saved.clone(), &mut provider).unwrap(), b"[\"changed\"]".to_vec());
    match (&envelope, &saved) {
        (VaultEnvelope::V2(before), VaultEnvelope::V2(after)) => assert_eq!(before.unlock, after.unlock),
        _ => panic!("expected version-2 vaults"),
    }
}

#[test]
fn backup_password_recovers_certificate_vault_and_rejects_wrong_password() {
    let provider = create_provider("PasswordOut Backup Test");
    let envelope = initialize_certificate_vault(
        "vault.json",
        false,
        "backup-password",
        &provider,
        pfx_backend(),
        b"{\"entries\":[]}",
    )
    .unwrap();

    assert_eq!(
        recover_vault_with_backup_password(&envelope, "backup-password").unwrap(),
        b"{\"entries\":[]}".to_vec()
    );
    assert!(recover_vault_with_backup_password(&envelope, "wrong-password").is_err());
}

#[test]
fn password_vault_rejects_backup_recovery_and_certificate_rotation() {
    let envelope = initialize_password_vault("vault.json", false, b"{}", "master").unwrap();
    assert!(recover_vault_with_backup_password(&envelope, "master").is_err());
    let provider = create_provider("PasswordOut Rotation Target");
    assert_eq!(
        rotate_certificate_with_backup_password(envelope, "master", &provider, pfx_backend()),
        Err("this vault uses normal password protection and has no certificate to rotate".to_string())
    );
}

#[test]
fn pfx_rotation_preserves_cipher_and_backup_wrapper() {
    let old_provider = create_provider("PasswordOut Old Certificate");
    let envelope = initialize_certificate_vault(
        "vault.json",
        false,
        "backup",
        &old_provider,
        pfx_backend(),
        b"{\"entries\":[]}",
    )
    .unwrap();
    let mut replacement = create_provider("PasswordOut Replacement");
    let rotated = rotate_certificate_with_backup_password(
        envelope.clone(),
        "backup",
        &replacement,
        pfx_backend(),
    )
    .expect("rotation should succeed");

    match (&envelope, &rotated) {
        (VaultEnvelope::V2(before), VaultEnvelope::V2(after)) => {
            assert_eq!(before.cipher, after.cipher);
            let backup = |unlock: &VaultUnlockMethod| match unlock {
                VaultUnlockMethod::Certificate { backup_wrapper, .. } => backup_wrapper.clone(),
                _ => panic!("expected certificate unlock"),
            };
            assert_eq!(backup(&before.unlock), backup(&after.unlock));
        }
        _ => panic!("expected version-2 vaults"),
    }
    assert_eq!(load_certificate_vault(rotated, &mut replacement).unwrap(), b"{\"entries\":[]}".to_vec());
}

#[test]
fn cac_requests_need_pkcs1_and_a_256_byte_key() {
    assert_eq!(
        cac_unwrap_request(KeyWrapAlgorithm::RsaPkcs1v15, &[]),
        Err("wrapped vault key cannot be empty".to_string())
    );
    assert_eq!(
        cac_unwrap_request(KeyWrapAlgorithm::RsaOaepSha256, &[1; 256]),
        Err("CAC/PIV vaults do not support RSA-OAEP-SHA256; expected RSA-PKCS1-v1_5".to_string())
    );
    assert_eq!(
        cac_unwrap_request(KeyWrapAlgorithm::RsaPkcs1v15, &[1; 10]),
        Err("CAC RSA key-management operation failed: RSA-2048 ciphertext must contain exactly 256 bytes; received 10".to_string())
    );
    let request = cac_unwrap_request(KeyWrapAlgorithm::RsaPkcs1v15, &[1; 256]).unwrap();
    assert_eq!(request.len(), 266);
    assert_eq!(
        cac_unwrapped_key(&[0x00, 0x02, 0x01]),
        Err("failed to decode CAC RSA result: PKCS#1 encoded message is too short: 3 bytes".to_string())
    );
}

#[test]
fn mismatched_provider_is_never_asked_to_unwrap() {
    let correct = create_provider("PasswordOut Expected Certificate");
    let expected = certificate_identity_from_der(&correct.certificate_der).unwrap();
    let wrapped =
        wrap_key_with_certificate(&correct.certificate_der, KeyWrapAlgorithm::RsaOaepSha256, &[0x44; 32])
            .unwrap();
    let mut wrong = create_provider("PasswordOut Other Certificate");
    let actual = certificate_identity_from_der(&wrong.certificate_der).unwrap();

    let error = unwrap_key_with_provider(&mut wrong, &expected, KeyWrapAlgorithm::RsaOaepSha256, &wrapped)
        .unwrap_err();
    assert_eq!(
        error,
        format!(
            "certificate fingerprint mismatch: expected {}, received {}",
            expected.sha256_fingerprint, actual.sha256_fingerprint
        )
    );
    assert_eq!(wrong.unwrap_requests, 0);

    let empty = unwrap_key_with_provider(&mut wrong, &expected, KeyWrapAlgorithm::RsaOaepSha256, &[]);
    assert_eq!(empty, Err("wrapped vault key cannot be empty".to_string()));
    assert_eq!(wrong.unwrap_requests, 0);
}

#[test]
fn identity_decides_whether_the_key_is_asked() {
    let mut provider = create_provider("PasswordOut Identity Gate");
    let identity = certificate_identity_from_der(&provider.certificate_der).unwrap();
    let wrapped =
        wrap_key_with_certificate(&provider.certificate_der, KeyWrapAlgorithm::RsaOaepSha256, &[0x55; 32])
            .unwrap();

    let failed_read = unwrap_key_for_identity(
        &mut provider,
        &identity,
        Err("unreadable".to_string()),
        KeyWrapAlgorithm::RsaOaepSha256,
        &wrapped,
    );
    assert_eq!(failed_read, Err("unreadable".to_string()));
    assert_eq!(provider.unwrap_requests, 0);

    let mut other = identity.clone();
    other.sha256_fingerprint = "AA".to_string();
    let mismatch = unwrap_key_for_identity(
        &mut provider,
        &identity,
        Ok(other),
        KeyWrapAlgorithm::RsaOaepSha256,
        &wrapped,
    );
    assert_eq!(
        mismatch,
        Err(format!("certificate fingerprint mismatch: expected {}, received AA", identity.sha256_fingerprint))
    );
    assert_eq!(provider.unwrap_requests, 0);

    let unwrapped = unwrap_key_for_identity(
        &mut provider,
        &identity,
        Ok(identity.clone()),
        KeyWrapAlgorithm::RsaOaepSha256,
        &wrapped,
    )
    .unwrap();
    assert_eq!(unwrapped, vec![0x55; 32]);
    assert_eq!(provider.unwrap_requests, 1);
}

#[test]
fn rotation_key_needs_the_backup_password() {
    let provider = create_provider("PasswordOut Rotation Key");
    let envelope = initialize_certificate_vault(
        "vault.json",
        false,
        "backup",
        &provider,
        pfx_backend(),
        b"{}",
    )
    .unwrap();
    assert_eq!(recover_rotation_key(&envelope, "backup").unwrap().len(), 32);
    assert_eq!(
        recover_rotation_key(&envelope, "wrong"),
        Err("unable to unlock vault key: incorrect password or damaged wrapper".to_string())
    );
    let replacement = create_provider("PasswordOut Rotation Replacement");
    assert_eq!(
        rotate_certificate_with_backup_password(envelope, "wrong", &replacement, pfx_backend()),
        Err("unable to unlock vault key: incorrect password or damaged wrapper".to_string())
    );
}

#[test]
fn certificate_envelope_keeps_valid_parts_and_names_the_first_problem() {
    let provider = create_provider("PasswordOut Envelope Parts");
    let envelope =
        initialize_certificate_vault("vault.json", false, "backup", &provider, pfx_backend(), b"{}").unwrap();
    let VaultEnvelope::V2(version_2) = envelope.clone() else {
        panic!("expected a version-2 vault");
    };
    let VaultUnlockMethod::Certificate { certificate_wrapper, backup_wrapper } = version_2.unlock else {
        panic!("expected certificate unlock");
    };
    assert_eq!(
        certificate_envelope(2, certificate_wrapper.clone(), backup_wrapper.clone(), version_2.cipher.clone()),
        Ok(envelope)
    );
    assert_eq!(
        certificate_envelope(7, certificate_wrapper, backup_wrapper, version_2.cipher),
        Err("invalid version-2 vault format value 7; expected 2".to_string())
    );
}
