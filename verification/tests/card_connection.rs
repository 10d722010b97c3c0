use password_out::certificate::cac::{
    cac_key_from_answer, key_transport_exchange, CacConnectStep, CacConnection,
};
use password_out::hotkey::windows::test_registration;
use password_out::smartcard::apdu::{transmit_chained, ChainedExchange, ExchangeStep};
use password_out::smartcard::wrapping::decode_pkcs1_v15_encoded_message;
use password_out::smartcard::piv::{PivError, SELECT_PIV_APDU};
use password_out::smartcard::tlv::TlvError;
use password_out::text::{hex_byte_string, upper_hex_string};

fn get_data_answer(certificate: &[u8]) -> Vec<u8> {
    let mut inner = vec![0x70, certificate.len() as u8];
    inner.extend_from_slice(certificate);
    inner.extend_from_slice(&[0x71, 0x01, 0x00]);
    let mut answer = vec![0x53, inner.len() as u8];
    answer.extend_from_slice(&inner);
    answer
}

#[test]
fn connection_selects_reads_and_verifies() {
    let (mut connection, step) = CacConnection::start("123456");
    match step {
        CacConnectStep::Exchange(command) => assert_eq!(command, SELECT_PIV_APDU.to_vec()),
        other => panic!("unexpected first step {other:?}"),
    }

    match connection.advance(Some(&[0x61, 0x11])) {
        CacConnectStep::Exchange(command) => assert_eq!(
            command,
            vec![0x00, 0xCB, 0x3F, 0xFF, 0x05, 0x5C, 0x03, 0x5F, 0xC1, 0x0B, 0x00]
        ),
        other => panic!("unexpected step {other:?}"),
    }

    let certificate = [0x30, 0x03, 0x02, 0x01, 0x07];
    match connection.advance(Some(&get_data_answer(&certificate))) {
        CacConnectStep::Transmit(command) => assert_eq!(
            command,
            vec![0x00, 0x20, 0x00, 0x80, 0x08, b'1', b'2', b'3', b'4', b'5', b'6', 0xFF, 0xFF]
        ),
        other => panic!("unexpected step {other:?}"),
    }
    assert!(!connection.finished());

    match connection.advance(Some(&[0x90, 0x00])) {
        CacConnectStep::Connected(der) => assert_eq!(der, certificate.to_vec()),
        other => panic!("unexpected step {other:?}"),
    }
    assert!(connection.finished());
}

fn failure(step: CacConnectStep) -> String {
    match step {
        CacConnectStep::Failed(message) => message,
        other => panic!("expected a failure, got {other:?}"),
    }
}

#[test]
fn connection_failures_name_the_stage() {
    let (mut connection, _) = CacConnection::start("123456");
    assert_eq!(
        failure(connection.advance(None)),
        "failed to select the PIV application: failed to select the PIV application"
    );
    assert!(connection.finished());

    let (mut connection, _) = CacConnection::start("123456");
    connection.advance(Some(&[]));
    assert_eq!(
        failure(connection.advance(None)),
        "failed to read the CAC key-management certificate: failed to retrieve Key Management certificate from slot 9D"
    );

    let (mut connection, _) = CacConnection::start("123456");
    connection.advance(Some(&[]));
    assert_eq!(
        failure(connection.advance(Some(&[]))),
        "failed to read the CAC key-management certificate: PIV GET DATA response was empty"
    );

    let (mut connection, _) = CacConnection::start("12ab56");
    connection.advance(Some(&[]));
    assert_eq!(
        failure(connection.advance(Some(&get_data_answer(&[0x30, 0x00])))),
        "CAC PIN verification failed: CAC PIN must contain only ASCII digits"
    );

    let (mut connection, _) = CacConnection::start("123456");
    connection.advance(Some(&[]));
    connection.advance(Some(&get_data_answer(&[0x30, 0x00])));
    assert_eq!(
        failure(connection.advance(Some(&[0x63, 0xC2]))),
        "CAC PIN verification failed: incorrect CAC PIN; the card reports 2 attempt(s) remaining"
    );

    let (mut connection, _) = CacConnection::start("123456");
    connection.advance(Some(&[]));
    connection.advance(Some(&get_data_answer(&[0x30, 0x00])));
    assert_eq!(
        failure(connection.advance(None)),
        "CAC PIN verification failed: failed to transmit PIV PIN verification command"
    );
}

#[test]
fn compressed_certificate_that_does_not_inflate_fails_decoding() {
    let (mut connection, _) = CacConnection::start("123456");
    connection.advance(Some(&[]));
    let mut answer = vec![0x53, 0x08, 0x70, 0x03, 0x01, 0x02, 0x03, 0x71, 0x01, 0x01];
    answer[1] = (answer.len() - 2) as u8;
    assert_eq!(
        failure(connection.advance(Some(&answer))),
        "failed to decode the CAC key-management certificate: failed to decompress the PIV certificate"
    );
}

#[test]
fn key_transport_exchange_targets_the_key_management_key() {
    let request = vec![0x7C, 0x02, 0x82, 0x00];
    let (exchange, first) = key_transport_exchange(&request);
    assert_eq!(exchange.ins, 0x87);
    assert_eq!(exchange.p1, 0x07);
    assert_eq!(exchange.p2, 0x9D);
    assert_eq!(first, vec![0x00, 0x87, 0x07, 0x9D, 0x04, 0x7C, 0x02, 0x82, 0x00, 0x00]);
}

#[test]
fn key_from_card_answer() {
    let mut encoded = vec![0x00, 0x02];
    encoded.extend_from_slice(&[0xA5; 221]);
    encoded.push(0x00);
    encoded.extend_from_slice(&[0x42; 32]);
    let mut answer = vec![0x7C, 0x82, 0x01, 0x04, 0x82, 0x82, 0x01, 0x00];
    answer.extend_from_slice(&encoded);
    assert_eq!(cac_key_from_answer(Some(&answer)), Ok(vec![0x42; 32]));

    assert_eq!(
        cac_key_from_answer(None),
        Err("CAC RSA key-management operation failed: PIV RSA key-transport operation failed".to_string())
    );
    assert_eq!(
        cac_key_from_answer(Some(&[0x7D, 0x00])),
        Err("CAC RSA key-management operation failed: PIV GENERAL AUTHENTICATE returned tag 7D; expected 7C".to_string())
    );
}

#[test]
fn piv_and_tlv_errors_read_as_sentences() {
    assert_eq!(
        PivError::PinStatus { sw1: 0x6A, sw2: 0x0F }.message(),
        "CAC PIN verification failed with status 6A0F"
    );
    assert_eq!(
        PivError::WrongSlot { key_reference: 0x9A }.message(),
        "RSA key transport requires the PIV key-management slot; received 9A"
    );
    assert_eq!(
        PivError::Tlv(TlvError::TruncatedValue { declared: 5, available: 2 }).message(),
        "truncated BER-TLV value: declared 5 byte(s), only 2 available"
    );
    assert_eq!(TlvError::UnencodableTag { tag: 0x1ABCDEF }.message(), "BER-TLV tag 1ABCDEF is too large");
    assert_eq!(
        PivError::EncodedMessageLength { length: 255 }.message(),
        "PIV RSA operation returned 255 bytes; expected 256"
    );
}

#[test]
fn hexadecimal_text() {
    assert_eq!(hex_byte_string(0x0A), "0A");
    assert_eq!(upper_hex_string(0), "0");
    assert_eq!(upper_hex_string(0x7C), "7C");
    assert_eq!(upper_hex_string(0xFFFF_FFFF), "FFFFFFFF");
}

#[test]
fn registration_verdict() {
    assert_eq!(test_registration("CTRL+ALT+1", true), Ok(()));
    assert_eq!(
        test_registration("CTRL+ALT+1", false),
        Err("Windows rejected hotkey 'CTRL+ALT+1': it is already registered or reserved".to_string())
    );
}

#[test]
fn chained_commands_carry_all_of_the_data() {
    let data: Vec<u8> = (0..600u32).map(|i| (i % 251) as u8).collect();
    let (mut exchange, mut command) = ChainedExchange::new(0x00, 0x87, 0x07, 0x9D, &data);
    let mut carried = Vec::new();
    let mut commands = 0;
    loop {
        commands += 1;
        let length = command[4] as usize;
        carried.extend_from_slice(&command[5..5 + length]);
        let last = command[0] & 0x10 == 0;
        let response: &[u8] = if last { &[0xAA, 0x90, 0x00] } else { &[0x90, 0x00] };
        match transmit_chained(&mut exchange, response) {
            ExchangeStep::Transmit(next) => command = next,
            ExchangeStep::Complete(answer) => {
                assert_eq!(answer, vec![0xAA]);
                break;
            }
            ExchangeStep::Failed(error) => panic!("chained exchange failed: {error:?}"),
        }
    }
    assert_eq!(commands, 3);
    assert_eq!(carried, data);
}

#[test]
fn pkcs1_padding_round_trip() {
    let message = b"vault key".to_vec();
    let mut encoded = vec![0x00, 0x02];
    encoded.extend_from_slice(&[0x01; 8]);
    encoded.push(0x00);
    encoded.extend_from_slice(&message);
    assert_eq!(decode_pkcs1_v15_encoded_message(&encoded), Ok(message));
}
