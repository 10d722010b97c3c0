use vstd::prelude::*;

use super::tlv::{
    find_tlv, parse_tlv, spec_encode_length, spec_encode_tag, spec_encode_tlv, spec_find_tlv,
    spec_parse_tlv, TlvError,
};
use crate::text::{
    decimal, decimal_string, hex_byte, hex_byte_string, join2, join3, upper_hex, upper_hex_string,
};

verus! {

use vstd::string::StringSliceAdditionalSpecFns;

/// The SELECT command for the PIV application (NIST RID A000000308, PIX
/// 00001000 0100).
pub const SELECT_PIV_APDU: [u8; 17] = [
    0x00,
    0xA4,
    0x04,
    0x00,
    0x0B,
    0xA0,
    0x00,
    0x00,
    0x03,
    0x08,
    0x00,
    0x00,
    0x10,
    0x00,
    0x01,
    0x00,
    0x00,
];

pub const TAG_DATA_OBJECT: u32 = 0x53;

pub const TAG_CERTIFICATE: u32 = 0x70;

pub const TAG_CERTIFICATE_INFO: u32 = 0x71;

pub const PIV_APPLICATION_PIN_REFERENCE: u8 = 0x80;

pub const PIV_PIN_LENGTH: usize = 8;

pub const PIV_PIN_PADDING: u8 = 0xFF;

pub const GENERAL_AUTHENTICATE_INS: u8 = 0x87;

pub const RSA_2048_ALGORITHM_REFERENCE: u8 = 0x07;

pub const TAG_DYNAMIC_AUTHENTICATION_TEMPLATE: u32 = 0x7C;

pub const TAG_CHALLENGE: u32 = 0x81;

pub const TAG_RESPONSE: u32 = 0x82;

/// The four PIV key slots.
#[derive(Clone, Copy, Debug, PartialEq, Eq, Structural)]
pub enum PivSlot {
    Authentication,
    DigitalSignature,
    KeyManagement,
    CardAuthentication,
}

/// Reasons a PIV operation fails.
#[derive(Clone, Copy, Debug, PartialEq, Eq)]
pub enum PivError {
    Tlv(TlvError),
    /// The PIN does not hold between six and eight bytes.
    PinLength,
    /// The PIN holds a byte other than an ASCII digit.
    PinNotDigits,
    /// The VERIFY response was shorter than a status word.
    InvalidPinResponse { length: usize },
    /// The card refused the PIN and reports the remaining attempts.
    IncorrectPin { retries: u8 },
    PinBlocked,
    PinFormatRejected,
    PinVerificationUnsupported,
    PinStatus { sw1: u8, sw2: u8 },
    /// RSA key transport was asked of a slot other than key management.
    WrongSlot { key_reference: u8 },
    /// The RSA-2048 ciphertext was not 256 bytes long.
    CiphertextLength { length: usize },
    EmptyResponse,
    UnexpectedTemplateTag { tag: u32 },
    TrailingBytes { count: usize },
    MissingResponseTag,
    EncodedMessageLength { length: usize },
    EmptyDataObject,
    MissingCertificateTag,
}

impl PivError {
    pub open spec fn spec_message(self) -> Seq<char> {
        match self {
            PivError::Tlv(error) => error.spec_message(),
            PivError::PinLength => "CAC PIN must contain between 6 and 8 digits"@,
            PivError::PinNotDigits => "CAC PIN must contain only ASCII digits"@,
            PivError::InvalidPinResponse { length } => "PIV PIN verification returned an invalid "@
                + decimal(length as nat) + "-byte response"@,
            PivError::IncorrectPin { retries } => "incorrect CAC PIN; the card reports "@ + decimal(
                retries as nat,
            ) + " attempt(s) remaining"@,
            PivError::PinBlocked => "CAC PIN is blocked; do not attempt additional PIN verification"@,
            PivError::PinFormatRejected => "CAC rejected the PIN format without verifying it"@,
            PivError::PinVerificationUnsupported => "CAC PIN verification is not supported over this card interface"@,
            PivError::PinStatus { sw1, sw2 } => "CAC PIN verification failed with status "@
                + hex_byte(sw1) + hex_byte(sw2),
            PivError::WrongSlot { key_reference } => "RSA key transport requires the PIV key-management slot; received "@
                + hex_byte(key_reference),
            PivError::CiphertextLength { length } => "RSA-2048 ciphertext must contain exactly 256 bytes; received "@
                + decimal(length as nat),
            PivError::EmptyResponse => "PIV GENERAL AUTHENTICATE response was empty"@,
            PivError::UnexpectedTemplateTag { tag } => "PIV GENERAL AUTHENTICATE returned tag "@
                + upper_hex(tag as nat) + "; expected 7C"@,
            PivError::TrailingBytes { count } => decimal(count as nat)
                + " trailing byte(s) followed the PIV authentication template"@,
            PivError::MissingResponseTag => "PIV GENERAL AUTHENTICATE response did not contain tag 82"@,
            PivError::EncodedMessageLength { length } => "PIV RSA operation returned "@ + decimal(
                length as nat,
            ) + " bytes; expected 256"@,
            PivError::EmptyDataObject => "PIV GET DATA response was empty"@,
            PivError::MissingCertificateTag => "PIV certificate object did not contain certificate tag 70"@,
        }
    }

    /// The error as a sentence.
    pub fn message(&self) -> (text: String)
        ensures
            text@ == self.spec_message(),
    {
        match self {
            PivError::Tlv(error) => error.message(),
            PivError::PinLength => String::from_str("CAC PIN must contain between 6 and 8 digits"),
            PivError::PinNotDigits => String::from_str("CAC PIN must contain only ASCII digits"),
            PivError::InvalidPinResponse { length } => join3(
                "PIV PIN verification returned an invalid ",
                decimal_string(*length as u64).as_str(),
                "-byte response",
            ),
            PivError::IncorrectPin { retries } => join3(
                "incorrect CAC PIN; the card reports ",
                decimal_string(*retries as u64).as_str(),
                " attempt(s) remaining",
            ),
            PivError::PinBlocked => String::from_str(
                "CAC PIN is blocked; do not attempt additional PIN verification",
            ),
            PivError::PinFormatRejected => String::from_str(
                "CAC rejected the PIN format without verifying it",
            ),
            PivError::PinVerificationUnsupported => String::from_str(
                "CAC PIN verification is not supported over this card interface",
            ),
            PivError::PinStatus { sw1, sw2 } => join3(
                "CAC PIN verification failed with status ",
                hex_byte_string(*sw1).as_str(),
                hex_byte_string(*sw2).as_str(),
            ),
            PivError::WrongSlot { key_reference } => join2(
                "RSA key transport requires the PIV key-management slot; received ",
                hex_byte_string(*key_reference).as_str(),
            ),
            PivError::CiphertextLength { length } => join2(
                "RSA-2048 ciphertext must contain exactly 256 bytes; received ",
                decimal_string(*length as u64).as_str(),
            ),
            PivError::EmptyResponse => String::from_str(
                "PIV GENERAL AUTHENTICATE response was empty",
            ),
            PivError::UnexpectedTemplateTag { tag } => join3(
                "PIV GENERAL AUTHENTICATE returned tag ",
                upper_hex_string(*tag).as_str(),
                "; expected 7C",
            ),
            PivError::TrailingBytes { count } => join2(
                decimal_string(*count as u64).as_str(),
                " trailing byte(s) followed the PIV authentication template",
            ),
            PivError::MissingResponseTag => String::from_str(
                "PIV GENERAL AUTHENTICATE response did not contain tag 82",
            ),
            PivError::EncodedMessageLength { length } => join3(
                "PIV RSA operation returned ",
                decimal_string(*length as u64).as_str(),
                " bytes; expected 256",
            ),
            PivError::EmptyDataObject => String::from_str("PIV GET DATA response was empty"),
            PivError::MissingCertificateTag => String::from_str(
                "PIV certificate object did not contain certificate tag 70",
            ),
        }
    }
}

impl PivSlot {
    pub open spec fn spec_key_reference(self) -> u8 {
        match self {
            PivSlot::Authentication => 0x9A,
            PivSlot::DigitalSignature => 0x9C,
            PivSlot::KeyManagement => 0x9D,
            PivSlot::CardAuthentication => 0x9E,
        }
    }

    /// The slot's key reference (P2 of GENERAL AUTHENTICATE).
    pub fn key_reference(self) -> (r: u8)
        ensures
            r == self.spec_key_reference(),
    {
        match self {
            PivSlot::Authentication => 0x9A,
            PivSlot::DigitalSignature => 0x9C,
            PivSlot::KeyManagement => 0x9D,
            PivSlot::CardAuthentication => 0x9E,
        }
    }

    pub open spec fn spec_certificate_object(self) -> Seq<u8> {
        match self {
            PivSlot::Authentication => seq![0x5Fu8, 0xC1u8, 0x05u8],
            PivSlot::DigitalSignature => seq![0x5Fu8, 0xC1u8, 0x0Au8],
            PivSlot::KeyManagement => seq![0x5Fu8, 0xC1u8, 0x0Bu8],
            PivSlot::CardAuthentication => seq![0x5Fu8, 0xC1u8, 0x01u8],
        }
    }

    /// The identifier of the data object holding the slot's certificate.
    pub fn certificate_object(self) -> (r: [u8; 3])
        ensures
            r@ == self.spec_certificate_object(),
    {
        let r: [u8; 3] = match self {
            PivSlot::Authentication => [0x5F, 0xC1, 0x05],
            PivSlot::DigitalSignature => [0x5F, 0xC1, 0x0A],
            PivSlot::KeyManagement => [0x5F, 0xC1, 0x0B],
            PivSlot::CardAuthentication => [0x5F, 0xC1, 0x01],
        };
        assert(r@ =~= self.spec_certificate_object());
        r
    }

    pub open spec fn spec_name(self) -> Seq<char> {
        match self {
            PivSlot::Authentication => "PIV Authentication"@,
            PivSlot::DigitalSignature => "Digital Signature"@,
            PivSlot::KeyManagement => "Key Management"@,
            PivSlot::CardAuthentication => "Card Authentication"@,
        }
    }

    /// The slot's display name.
    pub fn name(self) -> (r: &'static str)
        ensures
            r@ == self.spec_name(),
    {
        match self {
            PivSlot::Authentication => "PIV Authentication",
            PivSlot::DigitalSignature => "Digital Signature",
            PivSlot::KeyManagement => "Key Management",
            PivSlot::CardAuthentication => "Card Authentication",
        }
    }
}

/// A certificate read from a PIV slot, possibly gzip-compressed.
#[derive(Debug)]
pub struct PivCertificate {
    pub slot: PivSlot,
    pub encoded_certificate: Vec<u8>,
    pub compressed: bool,
}

/// Appends the bytes of `tag`: one, two or three big-endian bytes.
pub fn encode_tag(output: &mut Vec<u8>, tag: u32) -> (result: Result<(), TlvError>)
    ensures
        match spec_encode_tag(tag) {
            Some(bytes) => result is Ok && final(output)@ == old(output)@ + bytes,
            None => result == Err::<(), TlvError>(TlvError::UnencodableTag { tag })
                && final(output)@ == old(output)@,
        },
{
    if tag <= 0xFF {
        output.push(tag as u8);
        assert(final(output)@ =~= old(output)@ + seq![tag as u8]);
    } else if tag <= 0xFFFF {
        let high = (tag >> 8u32) as u8;
        let low = (tag & 0xFF) as u8;
        assert(high == (tag / 256) as u8 && low == (tag % 256) as u8) by (bit_vector)
            requires
                tag <= 0xFFFF,
                high == (tag >> 8u32) as u8,
                low == (tag & 0xFF) as u8,
        ;
        output.push(high);
        output.push(low);
        assert(final(output)@ =~= old(output)@ + seq![(tag / 256) as u8, (tag % 256) as u8]);
    } else if tag <= 0x00FF_FFFF {
        let first = (tag >> 16u32) as u8;
        let second = (tag >> 8u32) as u8;
        let third = tag as u8;
        assert(first == (tag / 65536) as u8 && second == ((tag / 256) % 256) as u8 && third == (
        tag % 256) as u8) by (bit_vector)
            requires
                tag <= 0xFFFFFF,
                first == (tag >> 16u32) as u8,
                second == (tag >> 8u32) as u8,
                third == tag as u8,
        ;
        output.push(first);
        output.push(second);
        output.push(third);
        assert(final(output)@ =~= old(output)@ + seq![
            (tag / 65536) as u8,
            ((tag / 256) % 256) as u8,
            (tag % 256) as u8,
        ]);
    } else {
        return Err(TlvError::UnencodableTag { tag });
    }
    Ok(())
}

/// Appends the definite-form length of a value of `length` bytes.
pub fn encode_length(output: &mut Vec<u8>, length: usize) -> (result: Result<(), TlvError>)
    ensures
        match spec_encode_length(length as int) {
            Some(bytes) => result is Ok && final(output)@ == old(output)@ + bytes,
            None => result == Err::<(), TlvError>(TlvError::UnencodableLength { length })
                && final(output)@ == old(output)@,
        },
{
    if length < 0x80 {
        output.push(length as u8);
        assert(final(output)@ =~= old(output)@ + seq![length as u8]);
        return Ok(());
    }
    if length <= 0xFF {
        output.push(0x81);
        output.push(length as u8);
        assert(final(output)@ =~= old(output)@ + seq![0x81u8, length as u8]);
        return Ok(());
    }
    if length <= 0xFFFF {
        output.push(0x82);
        output.push((length / 256) as u8);
        output.push((length % 256) as u8);
        assert(final(output)@ =~= old(output)@ + seq![
            0x82u8,
            (length / 256) as u8,
            (length % 256) as u8,
        ]);
        return Ok(());
    }
    Err(TlvError::UnencodableLength { length })
}

/// Appends a complete element: tag, length and value.
///
/// When the tag is encodable but the length is not, the tag bytes have
/// already been written.
pub fn append_tlv(output: &mut Vec<u8>, tag: u32, value: &[u8]) -> (result: Result<
    (),
    TlvError,
>)
    ensures
        match (spec_encode_tag(tag), spec_encode_length(value@.len() as int)) {
            (Some(tag_bytes), Some(length_bytes)) => result is Ok && final(output)@ == old(output)@ + tag_bytes + length_bytes + value@,
            (None, _) => result == Err::<(), TlvError>(TlvError::UnencodableTag { tag })
                && final(output)@ == old(output)@,
            (Some(tag_bytes), None) => result == Err::<(), TlvError>(
                TlvError::UnencodableLength { length: value@.len() as usize },
            ) && final(output)@ == old(output)@ + tag_bytes,
        },
{
    match encode_tag(output, tag) {
        Ok(()) => {},
        Err(error) => {
            return Err(error);
        },
    }
    match encode_length(output, value.len()) {
        Ok(()) => {},
        Err(error) => {
            return Err(error);
        },
    }
    let ghost before = output@;
    let mut index: usize = 0;
    while index < value.len()
        invariant
            index <= value@.len(),
            output@ == before + value@.subrange(0, index as int),
        decreases value@.len() - index,
    {
        output.push(value[index]);
        index = index + 1;
        assert(output@ =~= before + value@.subrange(0, index as int));
    }
    assert(value@.subrange(0, value@.len() as int) =~= value@);
    Ok(())
}

/// A PIN is six to eight ASCII digits.
pub open spec fn pin_error(pin: Seq<u8>) -> Option<PivError> {
    if !(6 <= pin.len() <= 8) {
        Some(PivError::PinLength)
    } else if exists|i: int| 0 <= i < pin.len() && !(0x30 <= #[trigger] pin[i] <= 0x39) {
        Some(PivError::PinNotDigits)
    } else {
        None
    }
}

pub fn validate_pin(pin: &str) -> (result: Result<(), PivError>)
    ensures
        match pin_error(pin.spec_bytes()) {
            Some(error) => result == Err::<(), PivError>(error),
            None => result is Ok,
        },
{
    let bytes = pin.as_bytes();
    if !(6 <= bytes.len() && bytes.len() <= 8) {
        return Err(PivError::PinLength);
    }
    let mut index: usize = 0;
    while index < bytes.len()
        invariant
            bytes@ == pin.spec_bytes(),
            6 <= bytes@.len() <= 8,
            index <= bytes@.len(),
            forall|i: int| 0 <= i < index ==> 0x30 <= #[trigger] bytes@[i] <= 0x39,
        decreases bytes@.len() - index,
    {
        if !(0x30 <= bytes[index] && bytes[index] <= 0x39) {
            assert(!(0x30 <= pin.spec_bytes()[index as int] <= 0x39));
            return Err(PivError::PinNotDigits);
        }
        index = index + 1;
    }
    Ok(())
}

/// The VERIFY command for the PIV application PIN: the PIN padded with
/// 0xFF to eight bytes.
pub open spec fn spec_verify_pin_command(pin: Seq<u8>) -> Seq<u8> {
    seq![0x00u8, 0x20u8, 0x00u8, PIV_APPLICATION_PIN_REFERENCE, PIV_PIN_LENGTH as u8] + pin
        + Seq::new((8 - pin.len()) as nat, |i: int| PIV_PIN_PADDING)
}

/// Checks the cardholder PIN and builds the VERIFY command that presents it
/// to the card.
pub fn verify_pin(pin: &str) -> (result: Result<Vec<u8>, PivError>)
    ensures
        match pin_error(pin.spec_bytes()) {
            Some(error) => result == Err::<Vec<u8>, PivError>(error),
            None => result matches Ok(command) && command@ == spec_verify_pin_command(
                pin.spec_bytes(),
            ),
        },
{
    match validate_pin(pin) {
        Ok(()) => {},
        Err(error) => {
            return Err(error);
        },
    }
    let bytes = pin.as_bytes();
    let mut command: Vec<u8> = Vec::new();
    command.push(0x00);
    command.push(0x20);
    command.push(0x00);
    command.push(PIV_APPLICATION_PIN_REFERENCE);
    command.push(PIV_PIN_LENGTH as u8);
    assert(command@.subrange(0, 5) =~= seq![0x00u8, 0x20u8, 0x00u8, 0x80u8, 0x08u8]);
    let mut index: usize = 0;
    while index < PIV_PIN_LENGTH
        invariant
            bytes@ == pin.spec_bytes(),
            6 <= bytes@.len() <= 8,
            index <= 8,
            command@.len() == 5 + index,
            command@.subrange(0, 5) == seq![0x00u8, 0x20u8, 0x00u8, 0x80u8, 0x08u8],
            forall|i: int|
                0 <= i < index ==> #[trigger] command@[5 + i] == (if i < bytes@.len() {
                    bytes@[i]
                } else {
                    0xFFu8
                }),
        decreases 8 - index,
    {
        if index < bytes.len() {
            command.push(bytes[index]);
        } else {
            command.push(PIV_PIN_PADDING);
        }
        index = index + 1;
        assert(command@.subrange(0, 5) =~= seq![0x00u8, 0x20u8, 0x00u8, 0x80u8, 0x08u8]);
    }
    let ghost expected = spec_verify_pin_command(bytes@);
    assert forall|i: int| 0 <= i < 13 implies command@[i] == expected[i] by {
        if i < 5 {
            assert(command@[i] == command@.subrange(0, 5)[i]);
        } else {
            assert(command@[5 + (i - 5)] == command@[i]);
        }
    }
    assert(command@ =~= spec_verify_pin_command(bytes@));
    Ok(command)
}

/// What a VERIFY response means: success, or why the card refused.
pub open spec fn spec_pin_status(response: Seq<u8>) -> Result<(), PivError> {
    if response.len() < 2 {
        Err(PivError::InvalidPinResponse { length: response.len() as usize })
    } else {
        let sw1 = response[response.len() - 2];
        let sw2 = response[response.len() - 1];
        if sw1 == 0x90 && sw2 == 0x00 {
            Ok(())
        } else if sw1 == 0x63 && sw2 / 16 == 0xC {
            Err(PivError::IncorrectPin { retries: sw2 % 16 })
        } else if sw1 == 0x69 && sw2 == 0x83 {
            Err(PivError::PinBlocked)
        } else if sw1 == 0x6A && sw2 == 0x80 {
            Err(PivError::PinFormatRejected)
        } else if sw1 == 0x6A && sw2 == 0x81 {
            Err(PivError::PinVerificationUnsupported)
        } else {
            Err(PivError::PinStatus { sw1, sw2 })
        }
    }
}

/// Interprets the card's answer to the VERIFY command.
pub fn pin_verification_status(response: &[u8]) -> (result: Result<(), PivError>)
    ensures
        result == spec_pin_status(response@),
{
    if response.len() < 2 {
        return Err(PivError::InvalidPinResponse { length: response.len() });
    }
    let status_offset = response.len() - 2;
    let sw1 = response[status_offset];
    let sw2 = response[status_offset + 1];
    assert(sw2 & 0xF0 == 0xC0 <==> sw2 / 16 == 0xC) by (bit_vector);
    assert(sw2 & 0x0F == sw2 % 16) by (bit_vector);
    if sw1 == 0x90 && sw2 == 0x00 {
        Ok(())
    } else if sw1 == 0x63 && sw2 & 0xF0 == 0xC0 {
        Err(PivError::IncorrectPin { retries: sw2 & 0x0F })
    } else if sw1 == 0x69 && sw2 == 0x83 {
        Err(PivError::PinBlocked)
    } else if sw1 == 0x6A && sw2 == 0x80 {
        Err(PivError::PinFormatRejected)
    } else if sw1 == 0x6A && sw2 == 0x81 {
        Err(PivError::PinVerificationUnsupported)
    } else {
        Err(PivError::PinStatus { sw1, sw2 })
    }
}

/// The data field of GENERAL AUTHENTICATE for RSA key transport: a
/// dynamic-authentication template holding an empty response tag (82) and
/// the ciphertext as challenge (81).
pub open spec fn spec_key_transport_request(ciphertext: Seq<u8>) -> Seq<u8> {
    spec_encode_tlv(
        TAG_DYNAMIC_AUTHENTICATION_TEMPLATE,
        spec_encode_tlv(TAG_RESPONSE, Seq::empty()).unwrap() + spec_encode_tlv(
            TAG_CHALLENGE,
            ciphertext,
        ).unwrap(),
    ).unwrap()
}

/// Checks an RSA-2048 key-transport request and builds the data field that
/// GENERAL AUTHENTICATE (INS 87, algorithm 07) sends with command chaining
/// to the key-management slot.
///
/// The cardholder PIN must have been verified before the command is sent.
pub fn rsa_key_transport(slot: PivSlot, ciphertext: &[u8]) -> (result: Result<Vec<u8>, PivError>)
    ensures
        slot != PivSlot::KeyManagement ==> result == Err::<Vec<u8>, PivError>(
            PivError::WrongSlot { key_reference: slot.spec_key_reference() },
        ),
        slot == PivSlot::KeyManagement && ciphertext@.len() != 256 ==> result == Err::<
            Vec<u8>,
            PivError,
        >(PivError::CiphertextLength { length: ciphertext@.len() as usize }),
        slot == PivSlot::KeyManagement && ciphertext@.len() == 256 ==> (result matches Ok(request)
            && request@ == spec_key_transport_request(ciphertext@)),
{
    if slot != PivSlot::KeyManagement {
        return Err(PivError::WrongSlot { key_reference: slot.key_reference() });
    }
    if ciphertext.len() != 256 {
        return Err(PivError::CiphertextLength { length: ciphertext.len() });
    }
    let mut inner: Vec<u8> = Vec::new();
    let empty: [u8; 0] = [];
    match append_tlv(&mut inner, TAG_RESPONSE, &empty) {
        Ok(()) => {},
        Err(error) => {
            return Err(PivError::Tlv(error));
        },
    }
    match append_tlv(&mut inner, TAG_CHALLENGE, ciphertext) {
        Ok(()) => {},
        Err(error) => {
            return Err(PivError::Tlv(error));
        },
    }
    assert(empty@ =~= Seq::<u8>::empty());
    assert(inner@ =~= spec_encode_tlv(TAG_RESPONSE, Seq::empty()).unwrap() + spec_encode_tlv(
        TAG_CHALLENGE,
        ciphertext@,
    ).unwrap());
    let mut request: Vec<u8> = Vec::new();
    match append_tlv(&mut request, TAG_DYNAMIC_AUTHENTICATION_TEMPLATE, inner.as_slice()) {
        Ok(()) => {},
        Err(error) => {
            return Err(PivError::Tlv(error));
        },
    }
    assert(request@ =~= spec_key_transport_request(ciphertext@));
    Ok(request)
}

/// What the card's GENERAL AUTHENTICATE answer yields: the 256-byte PKCS#1
/// encoded message inside tag 82 of a template that fills the whole answer.
pub open spec fn spec_key_transport_result(response: Seq<u8>) -> Result<Seq<u8>, PivError> {
    match spec_parse_tlv(response) {
        Err(error) => Err(PivError::Tlv(error)),
        Ok(None) => Err(PivError::EmptyResponse),
        Ok(Some((tag, start, end))) => {
            if tag != TAG_DYNAMIC_AUTHENTICATION_TEMPLATE {
                Err(PivError::UnexpectedTemplateTag { tag })
            } else if end != response.len() {
                Err(PivError::TrailingBytes { count: (response.len() - end) as usize })
            } else {
                match spec_find_tlv(response.subrange(start, end), TAG_RESPONSE) {
                    Err(error) => Err(PivError::Tlv(error)),
                    Ok(None) => Err(PivError::MissingResponseTag),
                    Ok(Some(message)) => {
                        if message.len() != 256 {
                            Err(PivError::EncodedMessageLength { length: message.len() as usize })
                        } else {
                            Ok(message)
                        }
                    },
                }
            }
        },
    }
}

/// Extracts the PKCS#1 encoded message from the card's answer to an RSA
/// key-transport request. Padding removal is left to the caller.
pub fn key_transport_result(response: &[u8]) -> (result: Result<Vec<u8>, PivError>)
    ensures
        match (result, spec_key_transport_result(response@)) {
            (Ok(message), Ok(expected)) => message@ == expected,
            (Err(a), Err(b)) => a == b,
            _ => false,
        },
{
    let outer = match parse_tlv(response) {
        Err(error) => {
            return Err(PivError::Tlv(error));
        },
        Ok(None) => {
            return Err(PivError::EmptyResponse);
        },
        Ok(Some(tlv)) => tlv,
    };
    proof {
        super::tlv::lemma_parse_tlv_bounds(response@);
    }
    if outer.tag != TAG_DYNAMIC_AUTHENTICATION_TEMPLATE {
        return Err(PivError::UnexpectedTemplateTag { tag: outer.tag });
    }
    if outer.total_length != response.len() {
        return Err(PivError::TrailingBytes { count: response.len() - outer.total_length });
    }
    let encoded_message = match find_tlv(outer.value, TAG_RESPONSE) {
        Err(error) => {
            return Err(PivError::Tlv(error));
        },
        Ok(None) => {
            return Err(PivError::MissingResponseTag);
        },
        Ok(Some(value)) => value,
    };
    if encoded_message.len() != 256 {
        return Err(PivError::EncodedMessageLength { length: encoded_message.len() });
    }
    Ok(vstd::slice::slice_to_vec(encoded_message))
}

/// The GET DATA command for the data object `object_id`.
pub open spec fn spec_get_data_apdu(object_id: Seq<u8>) -> Seq<u8> {
    seq![0x00u8, 0xCBu8, 0x3Fu8, 0xFFu8, 0x05u8, 0x5Cu8, 0x03u8, object_id[0], object_id[1], object_id[2], 0x00u8]
}

pub fn build_get_data_apdu(object_id: [u8; 3]) -> (apdu: Vec<u8>)
    ensures
        apdu@ == spec_get_data_apdu(object_id@),
{
    let apdu = vec![
        0x00,
        0xCB,
        0x3F,
        0xFF,
        0x05,
        0x5C,
        0x03,
        object_id[0],
        object_id[1],
        object_id[2],
        0x00,
    ];
    assert(apdu@ =~= spec_get_data_apdu(object_id@));
    apdu
}

/// The contents of a PIV data object: the value of a leading tag 53 when
/// there is one, otherwise the whole answer.
pub open spec fn spec_data_object(data: Seq<u8>) -> Result<Seq<u8>, PivError> {
    match spec_parse_tlv(data) {
        Err(error) => Err(PivError::Tlv(error)),
        Ok(None) => Err(PivError::EmptyDataObject),
        Ok(Some((tag, start, end))) => {
            if tag == TAG_DATA_OBJECT {
                Ok(data.subrange(start, end))
            } else {
                Ok(data)
            }
        },
    }
}

pub fn extract_data_object(data: &[u8]) -> (result: Result<&[u8], PivError>)
    ensures
        match (result, spec_data_object(data@)) {
            (Ok(contents), Ok(expected)) => contents@ == expected,
            (Err(a), Err(b)) => a == b,
            _ => false,
        },
{
    let tlv = match parse_tlv(data) {
        Err(error) => {
            return Err(PivError::Tlv(error));
        },
        Ok(None) => {
            return Err(PivError::EmptyDataObject);
        },
        Ok(Some(tlv)) => tlv,
    };
    if tlv.tag == TAG_DATA_OBJECT {
        Ok(tlv.value)
    } else {
        Ok(data)
    }
}

/// The certificate a GET DATA answer holds: the value of tag 70, and the
/// compression flag from bit 0 of the first byte of tag 71 (absent or empty
/// means uncompressed).
pub open spec fn spec_read_certificate(piv_object: Seq<u8>) -> Result<(Seq<u8>, bool), PivError> {
    match spec_data_object(piv_object) {
        Err(error) => Err(error),
        Ok(container) => match spec_find_tlv(container, TAG_CERTIFICATE) {
            Err(error) => Err(PivError::Tlv(error)),
            Ok(None) => Err(PivError::MissingCertificateTag),
            Ok(Some(certificate)) => match spec_find_tlv(container, TAG_CERTIFICATE_INFO) {
                Err(error) => Err(PivError::Tlv(error)),
                Ok(info) => {
                    let compressed = match info {
                        Some(bytes) => bytes.len() > 0 && bytes[0] % 2 == 1,
                        None => false,
                    };
                    Ok((certificate, compressed))
                },
            },
        },
    }
}

/// Reads the certificate of `slot` from the answer to the GET DATA command
/// built from the slot's certificate object.
pub fn read_certificate(slot: PivSlot, piv_object: &[u8]) -> (result: Result<
    PivCertificate,
    PivError,
>)
    ensures
        match (result, spec_read_certificate(piv_object@)) {
            (Ok(certificate), Ok((encoded, compressed))) => {
                &&& certificate.slot == slot
                &&& certificate.encoded_certificate@ == encoded
                &&& certificate.compressed == compressed
            },
            (Err(a), Err(b)) => a == b,
            _ => false,
        },
{
    let container = match extract_data_object(piv_object) {
        Err(error) => {
            return Err(error);
        },
        Ok(container) => container,
    };
    let encoded_certificate = match find_tlv(container, TAG_CERTIFICATE) {
        Err(error) => {
            return Err(PivError::Tlv(error));
        },
        Ok(None) => {
            return Err(PivError::MissingCertificateTag);
        },
        Ok(Some(value)) => vstd::slice::slice_to_vec(value),
    };
    let certificate_info: u8 = match find_tlv(container, TAG_CERTIFICATE_INFO) {
        Err(error) => {
            return Err(PivError::Tlv(error));
        },
        Ok(None) => 0,
        Ok(Some(value)) => {
            if value.len() > 0 {
                value[0]
            } else {
                0
            }
        },
    };
    assert(certificate_info & 0x01 != 0 <==> certificate_info % 2 == 1) by (bit_vector);
    Ok(PivCertificate { slot, encoded_certificate, compressed: certificate_info & 0x01 != 0 })
}

/// The SELECT command that makes the PIV application current.
pub fn select_piv() -> (apdu: Vec<u8>)
    ensures
        apdu@ == SELECT_PIV_APDU@,
{
    let apdu = vstd::slice::slice_to_vec(SELECT_PIV_APDU.as_slice());
    apdu
}

/// Every PIN of six, seven or eight ASCII digits is accepted, and the
/// VERIFY command presenting it is `00 20 00 80 08`, then the PIN's bytes,
/// then `FF` up to eight bytes; a PIN of any other length is refused for
/// its length, whatever it holds, and one of the right length that holds
/// anything but digits is refused for that.
pub proof fn lemma_digit_pins_are_accepted(pin: Seq<u8>)
    ensures
        6 <= pin.len() <= 8 && (forall|i: int| 0 <= i < pin.len() ==> 0x30 <= #[trigger] pin[i] <= 0x39)
            ==> {
            let command = spec_verify_pin_command(pin);
            &&& pin_error(pin) is None
            &&& command.len() == 13
            &&& command.subrange(0, 5) == seq![0x00u8, 0x20u8, 0x00u8, 0x80u8, 0x08u8]
            &&& command.subrange(5, 5 + pin.len() as int) == pin
            &&& forall|i: int| 5 + pin.len() <= i < 13 ==> #[trigger] command[i] == 0xFFu8
        },
        !(6 <= pin.len() <= 8) ==> pin_error(pin) == Some(PivError::PinLength),
        6 <= pin.len() <= 8 && (exists|i: int| 0 <= i < pin.len() && !(0x30 <= #[trigger] pin[i] <= 0x39))
            ==> pin_error(pin) == Some(PivError::PinNotDigits),
{
    if 6 <= pin.len() <= 8 && (forall|i: int| 0 <= i < pin.len() ==> 0x30 <= #[trigger] pin[i] <= 0x39) {
        let command = spec_verify_pin_command(pin);
        assert(command.subrange(0, 5) =~= seq![0x00u8, 0x20u8, 0x00u8, 0x80u8, 0x08u8]);
        assert(command.subrange(5, 5 + pin.len() as int) =~= pin);
    }
}

} // verus!
