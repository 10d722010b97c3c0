use base64::Engine;
use openssl::hash::MessageDigest;

use password_out::certificate::key_wrap::{wrap_key_with_certificate, KeyWrapAlgorithm};
use password_out::certificate::pfx::PfxKeyProvider;
use password_out::certificate::provider::{CertificatePrivateKey, CertificateSource};
use password_out::certificate::issuance::{pack_checked_pair, IssuedRecord};
use password_out::certificate::self_signed::{
    create_self_signed_pfx, load_pfx_der, pair_if_matching, pfx_parts, validate_options,
    SelfSignedCertificateOptions,
};
use password_out::smartcard::certificate::display_certificate;
use password_out::smartcard::wrapping::{
    check_cac_key_info, wrap_key_with_cac_certificate, CAC_KEY_MANAGEMENT_SLOT,
    CAC_WRAP_ALGORITHM_RSA_OAEP_SHA256, RSA_ENCRYPTION_OID,
};

fn quick_options() -> SelfSignedCertificateOptions {
    SelfSignedCertificateOptions {
        rsa_bits: 2048,
        validity_days: 30,
        ..SelfSignedCertificateOptions::default()
    }
}

#[test]
fn creates_and_loads_password_protected_pfx() {
    let options = quick_options();

    let generated =
        create_self_signed_pfx(&options, "test-password").expect("PFX generation should succeed");

    assert!(!generated.pfx_der.is_empty());

    let loaded =
        load_pfx_der(&generated.pfx_der, "test-password").expect("PFX loading should succeed");

    let certificate_public_key =
        loaded.certificate.public_key().expect("certificate should contain a public key");

    assert!(certificate_public_key.public_eq(&loaded.private_key));
}

#[test]
fn rejects_wrong_pfx_password() {
    let options = quick_options();

    let generated = create_self_signed_pfx(&options, "correct-password")
        .expect("PFX generation should succeed");

    let result = load_pfx_der(&generated.pfx_der, "wrong-password");

    assert!(result.is_err());
}

#[test]
fn rejects_empty_password() {
    let options = SelfSignedCertificateOptions::default();

    let result = create_self_signed_pfx(&options, "");

    assert!(result.is_err());
}

#[test]
fn wraps_and_unwraps_vault_key_with_pfx_provider() {
    let generated =
        create_self_signed_pfx(&quick_options(), "test-password").expect("PFX generation should succeed");

    let loaded =
        load_pfx_der(&generated.pfx_der, "test-password").expect("PFX loading should succeed");

    let mut provider =
        PfxKeyProvider::from_loaded_pfx(loaded).expect("PFX provider creation should succeed");

    let certificate_der = provider.certificate_der().expect("certificate encoding should succeed");

    let vault_key = [0x42_u8; 32];

    let wrapped_key =
        wrap_key_with_certificate(&certificate_der, KeyWrapAlgorithm::RsaOaepSha256, &vault_key)
            .expect("vault-key wrapping should succeed");

    assert_ne!(wrapped_key, vault_key);

    let unwrapped_key = provider
        .unwrap_key(KeyWrapAlgorithm::RsaOaepSha256, &wrapped_key)
        .expect("vault-key unwrapping should succeed");

    assert_eq!(unwrapped_key.as_slice(), vault_key);
}

#[test]
fn rejects_tampered_wrapped_key() {
    let generated =
        create_self_signed_pfx(&quick_options(), "test-password").expect("PFX generation should succeed");

    let loaded =
        load_pfx_der(&generated.pfx_der, "test-password").expect("PFX loading should succeed");

    let mut provider =
        PfxKeyProvider::from_loaded_pfx(loaded).expect("PFX provider creation should succeed");

    let certificate_der = provider.certificate_der().expect("certificate encoding should succeed");

    let vault_key = [0x24_u8; 32];

    let mut wrapped_key =
        wrap_key_with_certificate(&certificate_der, KeyWrapAlgorithm::RsaOaepSha256, &vault_key)
            .expect("vault-key wrapping should succeed");

    wrapped_key[0] ^= 0xff;

    let result = provider.unwrap_key(KeyWrapAlgorithm::RsaOaepSha256, &wrapped_key);

    assert!(result.is_err());
}

#[test]
fn pkcs1_wrapped_key_unwraps_with_pfx_provider() {
    let generated =
        create_self_signed_pfx(&quick_options(), "pw-123456").expect("PFX generation should succeed");
    let loaded = load_pfx_der(&generated.pfx_der, "pw-123456").unwrap();
    let mut provider = PfxKeyProvider::from_loaded_pfx(loaded).unwrap();
    let certificate_der = provider.certificate_der().unwrap();
    let vault_key = [0x17_u8; 32];
    let wrapped =
        wrap_key_with_certificate(&certificate_der, KeyWrapAlgorithm::RsaPkcs1v15, &vault_key).unwrap();
    let unwrapped = provider.unwrap_key(KeyWrapAlgorithm::RsaPkcs1v15, &wrapped).unwrap();
    assert_eq!(unwrapped, vault_key);
}

#[test]
fn pfx_provider_rejects_empty_wrapped_key() {
    let generated = create_self_signed_pfx(&quick_options(), "pw").unwrap();
    let loaded = load_pfx_der(&generated.pfx_der, "pw").unwrap();
    let mut provider = PfxKeyProvider::from_loaded_pfx(loaded).unwrap();
    assert_eq!(
        provider.unwrap_key(KeyWrapAlgorithm::RsaOaepSha256, &[]),
        Err("wrapped vault key cannot be empty".to_string())
    );
}

#[test]
fn generated_certificate_carries_common_name_and_validity() {
    let options = SelfSignedCertificateOptions {
        common_name: "Vault Test Key".to_string(),
        friendly_name: "Vault Test Key".to_string(),
        validity_days: 30,
        rsa_bits: 2048,
    };
    let generated = create_self_signed_pfx(&options, "pw").unwrap();
    let subject = generated.certificate.subject_name().entries().next().unwrap();
    assert_eq!(subject.data().as_utf8().unwrap().to_string(), "Vault Test Key");
    assert_eq!(generated.certificate.subject_name().to_der().unwrap(), generated.certificate.issuer_name().to_der().unwrap());
    assert!(generated.certificate.public_key().unwrap().public_eq(&generated.private_key));
    assert_eq!(generated.private_key.bits(), 2048);
}

#[test]
fn pfx_keeps_certificate_and_key_together() {
    let generated = create_self_signed_pfx(&quick_options(), "pw").unwrap();
    let loaded = load_pfx_der(&generated.pfx_der, "pw").unwrap();
    assert_eq!(loaded.certificate.to_der().unwrap(), generated.certificate.to_der().unwrap());
}

#[test]
fn certificate_options_are_checked_in_order() {
    let blank_name = SelfSignedCertificateOptions { common_name: "  ".to_string(), ..quick_options() };
    assert_eq!(validate_options(&blank_name), Err("certificate common name cannot be empty".to_string()));

    let blank_friendly = SelfSignedCertificateOptions { friendly_name: "".to_string(), ..quick_options() };
    assert_eq!(validate_options(&blank_friendly), Err("PFX friendly name cannot be empty".to_string()));

    let no_days = SelfSignedCertificateOptions { validity_days: 0, rsa_bits: 1024, ..quick_options() };
    assert_eq!(validate_options(&no_days), Err("certificate validity must be at least one day".to_string()));

    let small_key = SelfSignedCertificateOptions { rsa_bits: 2047, ..quick_options() };
    assert_eq!(validate_options(&small_key), Err("RSA key size must be at least 2048 bits".to_string()));

    assert_eq!(validate_options(&quick_options()), Ok(()));
    assert_eq!(
        create_self_signed_pfx(&small_key, "pw").err(),
        Some("RSA key size must be at least 2048 bits".to_string())
    );
    assert_eq!(
        create_self_signed_pfx(&quick_options(), "").err(),
        Some("PFX password cannot be empty".to_string())
    );
}

#[test]
fn default_certificate_options() {
    let options = SelfSignedCertificateOptions::default();
    assert_eq!(options.common_name, "PasswordOut Vault Key");
    assert_eq!(options.friendly_name, "PasswordOut Vault Key");
    assert_eq!(options.validity_days, 1825);
    assert_eq!(options.rsa_bits, 3072);
}

#[test]
fn load_pfx_refuses_garbage_and_empty_password() {
    assert_eq!(load_pfx_der(b"not a pfx", "").err(), Some("PFX password cannot be empty".to_string()));
    let error = load_pfx_der(b"not a pfx", "pw").err().unwrap();
    assert!(error.starts_with("failed to parse PFX data: "), "{error}");
}

#[test]
fn cac_wrapping_records_slot_fingerprint_and_oaep_ciphertext() {
    let generated = create_self_signed_pfx(&quick_options(), "pw").unwrap();
    let certificate_der = generated.certificate.to_der().unwrap();
    let vault_key = [0x5A_u8; 32];

    let wrapped = wrap_key_with_cac_certificate(&certificate_der, &vault_key).unwrap();

    assert_eq!(wrapped.slot, CAC_KEY_MANAGEMENT_SLOT);
    assert_eq!(wrapped.algorithm, CAC_WRAP_ALGORITHM_RSA_OAEP_SHA256);
    let digest = generated.certificate.digest(MessageDigest::sha256()).unwrap();
    let expected_fingerprint =
        digest.iter().map(|byte| format!("{byte:02X}")).collect::<Vec<_>>().join(":");
    assert_eq!(wrapped.certificate_sha256, expected_fingerprint);

    let ciphertext = base64::engine::general_purpose::STANDARD_NO_PAD
        .decode(&wrapped.wrapped_key)
        .unwrap();
    assert_eq!(ciphertext.len(), 256);
    let loaded = load_pfx_der(&generated.pfx_der, "pw").unwrap();
    let mut provider = PfxKeyProvider::from_loaded_pfx(loaded).unwrap();
    let unwrapped = provider.unwrap_key(KeyWrapAlgorithm::RsaOaepSha256, &ciphertext).unwrap();
    assert_eq!(unwrapped, vault_key);
}

#[test]
fn cac_wrapping_refuses_bad_input() {
    let generated = create_self_signed_pfx(&quick_options(), "pw").unwrap();
    let certificate_der = generated.certificate.to_der().unwrap();

    assert_eq!(
        wrap_key_with_cac_certificate(&certificate_der, &[]).err(),
        Some("vault key cannot be empty".to_string())
    );

    let mut trailing = certificate_der.clone();
    trailing.push(0);
    assert_eq!(
        wrap_key_with_cac_certificate(&trailing, &[1, 2, 3]).err(),
        Some("1 trailing byte(s) remained after parsing the CAC certificate".to_string())
    );

    let error = wrap_key_with_cac_certificate(&[0x30, 0x01], &[1, 2, 3]).err().unwrap();
    assert!(error.starts_with("failed to parse CAC key-management certificate: "), "{error}");
}

#[test]
fn cac_key_info_check() {
    assert_eq!(check_cac_key_info(0, RSA_ENCRYPTION_OID), Ok(()));
    assert_eq!(
        check_cac_key_info(3, RSA_ENCRYPTION_OID),
        Err("3 trailing byte(s) remained after parsing the CAC certificate".to_string())
    );
    assert_eq!(
        check_cac_key_info(0, "1.2.840.10045.2.1"),
        Err("unsupported CAC public-key algorithm 1.2.840.10045.2.1; expected RSA (1.2.840.113549.1.1.1)".to_string())
    );
}

#[test]
fn certificate_display_lines() {
    let generated = create_self_signed_pfx(&quick_options(), "pw").unwrap();
    let der = generated.certificate.to_der().unwrap();
    let lines = display_certificate(&der).unwrap();
    assert_eq!(lines.len(), 11);
    assert_eq!(lines[0], "");
    assert_eq!(lines[1], "PIV Authentication certificate");
    assert_eq!(lines[3], "Subject: CN=PasswordOut Vault Key");
    assert_eq!(lines[4], "Issuer: CN=PasswordOut Vault Key");
    assert_eq!(lines[8], "Signature algorithm: 1.2.840.113549.1.1.11");
    assert_eq!(lines[9], "Public-key algorithm: 1.2.840.113549.1.1.1");
    assert_eq!(lines[10], "Public-key data size: 270 bytes");

    let mut trailing = der.clone();
    trailing.extend_from_slice(&[0, 0]);
    let lines = display_certificate(&trailing).unwrap();
    assert_eq!(lines[0], "Warning: 2 trailing byte(s) remained after X.509 parsing.");
    assert_eq!(lines.len(), 12);

    let error = display_certificate(&[0x30]).unwrap_err();
    assert!(error.starts_with("failed to parse DER X.509 certificate: "), "{error}");
}

#[test]
fn pfx_parts_name_the_missing_part() {
    let first = create_self_signed_pfx(&quick_options(), "pw").unwrap();
    let second = create_self_signed_pfx(&quick_options(), "pw").unwrap();

    assert_eq!(
        pfx_parts(None, Some(first.private_key.clone())).err(),
        Some("PFX does not contain a certificate".to_string())
    );
    assert_eq!(
        pfx_parts(Some(first.certificate.clone()), None).err(),
        Some("PFX does not contain a private key".to_string())
    );
    let (certificate, key) =
        pfx_parts(Some(first.certificate.clone()), Some(first.private_key.clone())).unwrap();
    assert_eq!(certificate.to_der().unwrap(), first.certificate.to_der().unwrap());
    assert!(key.public_eq(&first.private_key));

    assert_eq!(
        pair_if_matching(first.certificate.clone(), second.private_key.clone(), false).err(),
        Some("PFX certificate does not match its private key".to_string())
    );
    let loaded = pair_if_matching(first.certificate.clone(), first.private_key.clone(), true).unwrap();
    assert_eq!(loaded.certificate.to_der().unwrap(), first.certificate.to_der().unwrap());
}

#[test]
fn pfx_from_another_archive_does_not_open_with_its_password() {
    let generated = create_self_signed_pfx(&quick_options(), "first").unwrap();
    let error = load_pfx_der(&generated.pfx_der, "second").err().unwrap();
    assert!(error.starts_with("failed to unlock PFX: "), "{error}");
}

#[test]
fn generated_pair_is_packed_only_when_it_matches() {
    let generated = create_self_signed_pfx(&quick_options(), "pw").unwrap();
    assert_eq!(
        pack_checked_pair(
            generated.certificate.clone(),
            generated.private_key.clone(),
            IssuedRecord::empty(),
            false,
            "name",
            "pw",
        )
        .err(),
        Some("generated certificate does not match generated private key".to_string())
    );
    let packed =
        pack_checked_pair(
            generated.certificate.clone(),
            generated.private_key.clone(),
            IssuedRecord::empty(),
            true,
            "name",
            "pw2",
        )
        .unwrap();
    assert_eq!(packed.issued.friendly_name.as_deref(), Some("name"));
    assert_eq!(packed.issued.version, None);
    assert_eq!(packed.certificate.to_der().unwrap(), generated.certificate.to_der().unwrap());
    let reopened = load_pfx_der(&packed.pfx_der, "pw2").unwrap();
    assert_eq!(reopened.certificate.to_der().unwrap(), generated.certificate.to_der().unwrap());
}
