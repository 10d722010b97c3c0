use openssl::rsa::Padding;

use password_out::certificate::issuance::{
    certificate_plan, generate_certificate, ExtensionRecord, SignatureDigest, X509_VERSION_3,
};
use password_out::certificate::self_signed::{
    create_self_signed_pfx, SelfSignedCertificateOptions, SERIAL_NUMBER_BITS,
};
use password_out::smartcard::round_trip::{round_trip_ciphertext, round_trip_verdict};

fn options(bits: u32) -> SelfSignedCertificateOptions {
    SelfSignedCertificateOptions {
        common_name: "PasswordOut Card Stand-in".to_string(),
        friendly_name: "Card Stand-in".to_string(),
        validity_days: 7,
        rsa_bits: bits,
    }
}

fn encoded(message: &[u8]) -> Vec<u8> {
    let mut block = vec![0x00, 0x02];
    block.extend(std::iter::repeat(0x5A).take(256 - 3 - message.len()));
    block.push(0x00);
    block.extend_from_slice(message);
    block
}

#[test]
fn round_trip_recovers_the_temporary_key() {
    let generated = create_self_signed_pfx(&options(2048), "pw").unwrap();
    let certificate_der = generated.certificate.to_der().unwrap();
    let original = [0x3C_u8; 32];

    let ciphertext = round_trip_ciphertext(&certificate_der, &original).unwrap();
    assert_eq!(ciphertext.len(), 256);

    let rsa = generated.private_key.rsa().unwrap();
    let mut block = vec![0_u8; 256];
    let length = rsa.private_decrypt(&ciphertext, &mut block, Padding::NONE).unwrap();
    block.truncate(length);
    assert_eq!(round_trip_verdict(&original, &block), Ok(()));
    assert!(round_trip_verdict(&[0x3D_u8; 32], &block).is_err());
}

#[test]
fn round_trip_refuses_trailing_bytes_and_other_key_sizes() {
    let generated = create_self_signed_pfx(&options(2048), "pw").unwrap();
    let mut with_tail = generated.certificate.to_der().unwrap();
    with_tail.push(0x00);
    assert_eq!(
        round_trip_ciphertext(&with_tail, &[1_u8; 32]),
        Err("1 trailing byte(s) remained after parsing the slot-9D certificate".to_string())
    );

    let larger = create_self_signed_pfx(&options(3072), "pw").unwrap();
    assert_eq!(
        round_trip_ciphertext(&larger.certificate.to_der().unwrap(), &[1_u8; 32]),
        Err("CAC RSA key has a modulus size of 384 bytes; this test currently supports RSA-2048 only"
            .to_string())
    );

    let error = round_trip_ciphertext(b"not a certificate", &[1_u8; 32]).unwrap_err();
    assert!(error.starts_with("failed to parse slot-9D certificate for RSA test: "), "{error}");
}

#[test]
fn round_trip_verdict_names_each_failure() {
    let original = [0x11_u8; 32];
    assert_eq!(round_trip_verdict(&original, &encoded(&original)), Ok(()));
    assert_eq!(
        round_trip_verdict(&original, &encoded(&[0x11_u8; 16])),
        Err("CAC recovered a key containing 16 bytes; expected 32".to_string())
    );
    assert_eq!(
        round_trip_verdict(&original, &encoded(&[0x12_u8; 32])),
        Err("CAC RSA key-transport test failed: recovered key does not match the original temporary key"
            .to_string())
    );
    let mut unpadded = encoded(&original);
    unpadded[1] = 0x01;
    assert_eq!(
        round_trip_verdict(&original, &unpadded),
        Err("failed to decode the CAC RSA result: PIV RSA result does not contain PKCS#1 v1.5 encryption padding"
            .to_string())
    );
}

#[test]
fn certificate_plan_carries_the_options() {
    let plan = certificate_plan(&options(2048));
    assert_eq!(plan.rsa_bits, 2048);
    assert_eq!(plan.common_name, "PasswordOut Card Stand-in");
    assert_eq!(plan.friendly_name, "Card Stand-in");
    assert_eq!(plan.x509_version, X509_VERSION_3);
    assert_eq!(plan.serial_number_bits, SERIAL_NUMBER_BITS);
    assert_eq!(plan.valid_from_days, 0);
    assert_eq!(plan.valid_until_days, 7);
    assert_eq!(plan.signature_digest, SignatureDigest::Sha256);
    assert_eq!(
        plan.extensions,
        vec![
            ExtensionRecord::BasicConstraints { critical: true, ca: false },
            ExtensionRecord::KeyUsage { critical: true, key_encipherment: true },
            ExtensionRecord::SubjectKeyIdentifier,
            ExtensionRecord::AuthorityKeyIdentifier { keyid_always: Some(true) },
        ]
    );
}

#[test]
fn generated_certificate_records_what_openssl_was_given() {
    let generated = create_self_signed_pfx(&options(2048), "pw").unwrap();
    let issued = &generated.issued;
    assert_eq!(issued.version, Some(X509_VERSION_3));
    assert_eq!(issued.serial_number_bits, Some(SERIAL_NUMBER_BITS));
    assert_eq!(issued.subject_common_name.as_deref(), Some("PasswordOut Card Stand-in"));
    assert_eq!(issued.issuer_common_name.as_deref(), Some("PasswordOut Card Stand-in"));
    assert_eq!(issued.public_key_bits, Some(2048));
    assert_eq!(issued.not_before_days, Some(0));
    assert_eq!(issued.not_after_days, Some(7));
    assert_eq!(issued.extensions.len(), 4);
    assert_eq!(issued.signature, Some((SignatureDigest::Sha256, 2048)));
    assert_eq!(issued.friendly_name.as_deref(), Some("Card Stand-in"));
    assert!(!generated.pfx_der.is_empty());
    let der = generated.certificate.to_der().unwrap();
    let (_, parsed) = x509_parser::parse_x509_certificate(&der).unwrap();
    let basic = parsed.basic_constraints().unwrap().unwrap();
    assert!(basic.critical);
    assert!(!basic.value.ca);
    let usage = parsed.key_usage().unwrap().unwrap();
    assert!(usage.critical);
    assert!(usage.value.key_encipherment());
    assert!(!usage.value.digital_signature());
}

#[test]
fn generated_certificate_follows_its_plan() {
    let plan = certificate_plan(&options(2048));
    let generated = generate_certificate(&plan, "plan-pw").unwrap();
    assert_eq!(generated.private_key.bits(), 2048);
    assert_eq!(generated.certificate.version(), X509_VERSION_3);
    let subject: Vec<String> = generated
        .certificate
        .subject_name()
        .entries()
        .map(|entry| entry.data().as_utf8().unwrap().to_string())
        .collect();
    assert_eq!(subject, vec!["PasswordOut Card Stand-in".to_string()]);
    let issuer: Vec<String> = generated
        .certificate
        .issuer_name()
        .entries()
        .map(|entry| entry.data().as_utf8().unwrap().to_string())
        .collect();
    assert_eq!(issuer, subject);
    let start = generated.certificate.not_before();
    let end = generated.certificate.not_after();
    assert_eq!(start.diff(end).unwrap().days, 7);
    let parsed = openssl::pkcs12::Pkcs12::from_der(&generated.pfx_der).unwrap().parse2("plan-pw").unwrap();
    assert!(parsed.cert.unwrap().public_key().unwrap().public_eq(&generated.private_key));
}
