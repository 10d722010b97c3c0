use std::io::Write;

use password_out::smartcard::apdu::{transmit_complete, CompleteExchange, ExchangeStep, ApduError, format_hex};
use password_out::smartcard::certificate::decode_certificate;
use password_out::smartcard::piv::{
    append_tlv, encode_length, pin_verification_status, rsa_key_transport, validate_pin,
    verify_pin, PivCertificate, PivError, PivSlot,
};
use password_out::smartcard::tlv::{find_tlv, parse_tlv, TlvError};
use password_out::smartcard::wrapping::{decode_pkcs1_v15_encoded_message, Pkcs1Error};

#[test]
fn encodes_short_form_tlv_length() {
    let mut encoded = Vec::new();

    append_tlv(&mut encoded, 0x82, &[0xAA, 0xBB]).expect("TLV encoding should succeed");

    assert_eq!(encoded, vec![0x82, 0x02, 0xAA, 0xBB]);
}

#[test]
fn encodes_one_byte_long_form_length() {
    let value = vec![0xAA; 128];
    let mut encoded = Vec::new();

    append_tlv(&mut encoded, 0x81, &value).expect("TLV encoding should succeed");

    assert_eq!(&encoded[..3], &[0x81, 0x81, 0x80]);
    assert_eq!(&encoded[3..], value.as_slice());
}

#[test]
fn encodes_two_byte_long_form_length() {
    let value = vec![0xAA; 256];
    let mut encoded = Vec::new();

    append_tlv(&mut encoded, 0x7C, &value).expect("TLV encoding should succeed");

    assert_eq!(&encoded[..4], &[0x7C, 0x82, 0x01, 0x00]);
    assert_eq!(&encoded[4..], value.as_slice());
}

#[test]
fn builds_expected_general_authenticate_template() {
    let ciphertext = vec![0x55; 256];

    let mut inner = Vec::new();
    append_tlv(&mut inner, 0x82, &[]).expect("response TLV should encode");
    append_tlv(&mut inner, 0x81, &ciphertext).expect("challenge TLV should encode");

    let mut outer = Vec::new();
    append_tlv(&mut outer, 0x7C, &inner).expect("authentication template should encode");

    assert_eq!(&outer[..4], &[0x7C, 0x82, 0x01, 0x06]);
    assert_eq!(&outer[4..7], &[0x82, 0x00, 0x81]);
    assert_eq!(&outer[7..10], &[0x82, 0x01, 0x00]);
    assert_eq!(&outer[10..], ciphertext.as_slice());
}

#[test]
fn rejects_unrepresentable_tlv_length() {
    let mut encoded = Vec::new();

    let result = encode_length(&mut encoded, 0x1_0000);

    assert!(result.is_err());
}

#[test]
fn decodes_valid_pkcs1_v15_encoded_message() {
    let vault_key = [0x42_u8; 32];

    let mut encoded = Vec::new();
    encoded.extend_from_slice(&[0x00, 0x02]);
    encoded.extend_from_slice(&[0xA5; 221]);
    encoded.push(0x00);
    encoded.extend_from_slice(&vault_key);

    assert_eq!(encoded.len(), 256);

    let decoded = decode_pkcs1_v15_encoded_message(&encoded)
        .expect("valid PKCS#1 v1.5 message should decode");

    assert_eq!(decoded, vault_key);
}

#[test]
fn rejects_invalid_pkcs1_v15_prefix() {
    let mut encoded = vec![0x00, 0x01];
    encoded.extend_from_slice(&[0xA5; 221]);
    encoded.push(0x00);
    encoded.extend_from_slice(&[0x42; 32]);

    let result = decode_pkcs1_v15_encoded_message(&encoded);

    assert!(result.is_err());
}

#[test]
fn rejects_pkcs1_v15_padding_shorter_than_eight_bytes() {
    let mut encoded = vec![0x00, 0x02];
    encoded.extend_from_slice(&[0xA5; 7]);
    encoded.push(0x00);
    encoded.extend_from_slice(&[0x42; 32]);

    let result = decode_pkcs1_v15_encoded_message(&encoded);

    assert!(result.is_err());
}

#[test]
fn rejects_pkcs1_v15_message_without_separator() {
    let mut encoded = vec![0x00, 0x02];
    encoded.extend_from_slice(&[0xA5; 254]);

    let result = decode_pkcs1_v15_encoded_message(&encoded);

    assert!(result.is_err());
}

#[test]
fn rejects_pkcs1_v15_message_with_empty_plaintext() {
    let mut encoded = vec![0x00, 0x02];
    encoded.extend_from_slice(&[0xA5; 253]);
    encoded.push(0x00);

    assert_eq!(encoded.len(), 256);

    let result = decode_pkcs1_v15_encoded_message(&encoded);

    assert!(result.is_err());
}

#[test]
fn pkcs1_errors_name_their_reason() {
    assert_eq!(
        decode_pkcs1_v15_encoded_message(&[0x00, 0x02, 0x01]),
        Err(Pkcs1Error::TooShort { length: 3 })
    );
    let mut short_padding = vec![0x00, 0x02];
    short_padding.extend_from_slice(&[0x11; 7]);
    short_padding.push(0x00);
    short_padding.extend_from_slice(&[0x42; 4]);
    assert_eq!(
        decode_pkcs1_v15_encoded_message(&short_padding),
        Err(Pkcs1Error::ShortPadding { length: 7 })
    );
    assert_eq!(
        Pkcs1Error::ShortPadding { length: 7 }.message(),
        "PKCS#1 padding contains only 7 byte(s); expected at least 8"
    );
    assert_eq!(
        Pkcs1Error::TooShort { length: 3 }.message(),
        "PKCS#1 encoded message is too short: 3 bytes"
    );
}

#[test]
fn parses_and_finds_tlv_elements() {
    let data = [0x53, 0x03, 0x70, 0x01, 0xAB, 0x99];
    let tlv = parse_tlv(&data).unwrap().unwrap();
    assert_eq!(tlv.tag, 0x53);
    assert_eq!(tlv.value, &[0x70, 0x01, 0xAB]);
    assert_eq!(tlv.total_length, 5);
    assert_eq!(find_tlv(&[0x70, 0x01, 0xAB, 0x71, 0x01, 0x01], 0x71).unwrap(), Some(&[0x01][..]));
    assert_eq!(find_tlv(&[0x70, 0x01, 0xAB], 0x71).unwrap(), None);
    assert!(parse_tlv(&[]).unwrap().is_none());
    assert!(matches!(parse_tlv(&[0x53, 0x05, 0x01]), Err(TlvError::TruncatedValue { .. })));
}

#[test]
fn pin_is_checked_and_padded_for_verify() {
    assert_eq!(validate_pin("12345"), Err(PivError::PinLength));
    assert_eq!(validate_pin("12a456"), Err(PivError::PinNotDigits));
    let command = verify_pin("123456").expect("a six-digit PIN is accepted");
    assert_eq!(
        command,
        vec![0x00, 0x20, 0x00, 0x80, 0x08, 0x31, 0x32, 0x33, 0x34, 0x35, 0x36, 0xFF, 0xFF]
    );
    assert_eq!(pin_verification_status(&[0x90, 0x00]), Ok(()));
    assert_eq!(pin_verification_status(&[0x63, 0xC2]), Err(PivError::IncorrectPin { retries: 2 }));
}

#[test]
fn key_transport_needs_the_key_management_slot_and_256_bytes() {
    assert_eq!(
        rsa_key_transport(PivSlot::Authentication, &[0u8; 256]),
        Err(PivError::WrongSlot { key_reference: 0x9A })
    );
    assert_eq!(
        rsa_key_transport(PivSlot::KeyManagement, &[0u8; 255]),
        Err(PivError::CiphertextLength { length: 255 })
    );
    let request = rsa_key_transport(PivSlot::KeyManagement, &[0x55; 256]).unwrap();
    assert_eq!(&request[..4], &[0x7C, 0x82, 0x01, 0x06]);
}

#[test]
fn complete_exchange_follows_get_response_and_finishes() {
    let (mut exchange, first) = (CompleteExchange::new(&[0x00, 0xCB, 0x3F, 0xFF]), ());
    let _ = first;
    match transmit_complete(&mut exchange, &[0x01, 0x02, 0x61, 0x03]) {
        ExchangeStep::Transmit(command) => assert_eq!(command, vec![0x00, 0xC0, 0x00, 0x00, 0x03]),
        other => panic!("unexpected step {:?}", other),
    }
    match transmit_complete(&mut exchange, &[0x03, 0x04, 0x05, 0x90, 0x00]) {
        ExchangeStep::Complete(data) => assert_eq!(data, vec![0x01, 0x02, 0x03, 0x04, 0x05]),
        other => panic!("unexpected step {:?}", other),
    }
    let mut failing = CompleteExchange::new(&[0x00, 0xA4]);
    match transmit_complete(&mut failing, &[0x6A, 0x82]) {
        ExchangeStep::Failed(error) => assert_eq!(error, ApduError::Status { sw1: 0x6A, sw2: 0x82 }),
        other => panic!("unexpected step {:?}", other),
    }
    assert_eq!(format_hex(&[0x0A, 0xFF]), "0A FF");
}

#[test]
fn uncompressed_certificate_is_returned_as_is_and_gzip_is_expanded() {
    let plain = PivCertificate {
        slot: PivSlot::KeyManagement,
        encoded_certificate: vec![0x30, 0x03, 0x01, 0x01, 0x00],
        compressed: false,
    };
    assert_eq!(decode_certificate(&plain).unwrap(), vec![0x30, 0x03, 0x01, 0x01, 0x00]);

    let mut encoder = flate2::write::GzEncoder::new(Vec::new(), flate2::Compression::default());
    encoder.write_all(&[0x30, 0x82, 0x01, 0x00]).unwrap();
    let compressed = PivCertificate {
        slot: PivSlot::KeyManagement,
        encoded_certificate: encoder.finish().unwrap(),
        compressed: true,
    };
    assert_eq!(decode_certificate(&compressed).unwrap(), vec![0x30, 0x82, 0x01, 0x00]);

    let broken = PivCertificate {
        slot: PivSlot::KeyManagement,
        encoded_certificate: vec![0x01, 0x02, 0x03],
        compressed: true,
    };
    assert_eq!(
        decode_certificate(&broken),
        Err("failed to decompress the PIV certificate".to_string())
    );
}

#[test]
fn bytes_after_an_element_do_not_change_it() {
    let alone = parse_tlv(&[0x5F, 0xC1, 0x05, 0x02, 0xAA, 0xBB]).unwrap().unwrap();
    let followed = parse_tlv(&[0x5F, 0xC1, 0x05, 0x02, 0xAA, 0xBB, 0x53, 0x00, 0xFF]).unwrap().unwrap();
    assert_eq!(alone.tag, 0x5FC105);
    assert_eq!(followed.tag, alone.tag);
    assert_eq!(followed.value, alone.value);
    assert_eq!(followed.total_length, alone.total_length);
    assert_eq!(followed.total_length, 6);
}

#[test]
fn tags_are_at_most_four_bytes() {
    let four = parse_tlv(&[0x5F, 0x81, 0x82, 0x03, 0x01, 0xAA]).unwrap().unwrap();
    assert_eq!(four.tag, 0x5F81_8203);
    assert_eq!(four.value, &[0xAA]);
    assert_eq!(four.total_length, 6);
    assert_eq!(parse_tlv(&[0x5F, 0x81, 0x82, 0x83, 0x04, 0x00]).err(), Some(TlvError::TagTooLong));
    assert_eq!(
        TlvError::TagTooLong.message(),
        "BER-TLV tags larger than four bytes are unsupported"
    );
    assert_eq!(parse_tlv(&[0x5F, 0x81]).err(), Some(TlvError::TruncatedTag));
}
