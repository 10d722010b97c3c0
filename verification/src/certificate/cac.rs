//! The certificate of a CAC/PIV card as a certificate source.
use vstd::prelude::*;

use crate::certificate::key_wrap::KeyWrapAlgorithm;
use crate::certificate::provider::CertificateSource;
use crate::smartcard::apdu::ChainedExchange;
use crate::smartcard::certificate::{decode_certificate, decoded_der};
use crate::smartcard::piv::{
    build_get_data_apdu, key_transport_result, pin_error, spec_key_transport_result,
    GENERAL_AUTHENTICATE_INS, RSA_2048_ALGORITHM_REFERENCE, pin_verification_status, read_certificate, rsa_key_transport,
    select_piv, spec_get_data_apdu, spec_key_transport_request, spec_pin_status,
    spec_read_certificate, spec_verify_pin_command, verify_pin, PivSlot, SELECT_PIV_APDU,
};
use crate::smartcard::wrapping::{decode_pkcs1_v15_encoded_message, spec_decode_pkcs1_v15};
use crate::text::{decimal, decimal_string, join2, join3};

verus! {

use vstd::string::StringSliceAdditionalSpecFns;

/// The public slot-9D certificate read from a card, used while creating a
/// CAC-backed vault. The PIN and the private key are needed only to unlock.
pub struct CacCertificateSource {
    certificate_der: Vec<u8>,
}

impl CacCertificateSource {
    pub closed spec fn der(&self) -> Seq<u8> {
        self.certificate_der@
    }

    /// A source for a non-empty DER certificate.
    pub fn new(certificate_der: Vec<u8>) -> (result: Result<Self, String>)
        ensures
            certificate_der@.len() == 0 ==> (result matches Err(message) && message@
                == "CAC certificate cannot be empty"@),
            certificate_der@.len() > 0 ==> (result matches Ok(source) && source.der()
                == certificate_der@),
    {
        if certificate_der.len() == 0 {
            return Err(String::from_str("CAC certificate cannot be empty"));
        }
        Ok(CacCertificateSource { certificate_der })
    }
}

impl CertificateSource for CacCertificateSource {
    open spec fn certificate_answer(&self) -> Option<Result<Seq<u8>, Seq<char>>> {
        Some(Ok(self.der()))
    }

    /// A copy of the certificate.
    fn certificate_der(&self) -> (result: Result<Vec<u8>, String>)
        ensures
            result matches Ok(der) && der@ == self.der(),
    {
        Ok(self.certificate_der.clone())
    }
}

pub open spec fn cac_algorithm_message() -> Seq<char> {
    "CAC/PIV vaults do not support RSA-OAEP-SHA256; expected RSA-PKCS1-v1_5"@
}

/// What a card is asked to decrypt for a wrapped vault key: the data of
/// the GENERAL AUTHENTICATE key-transport request for the key-management
/// slot, or why a card cannot unwrap this key.
pub fn cac_unwrap_request(algorithm: KeyWrapAlgorithm, wrapped_key: &[u8]) -> (result: Result<
    Vec<u8>,
    String,
>)
    ensures
        wrapped_key@.len() == 0 ==> (result matches Err(message) && message@
            == "wrapped vault key cannot be empty"@),
        wrapped_key@.len() > 0 && algorithm == KeyWrapAlgorithm::RsaOaepSha256 ==> (result matches Err(
            message,
        ) && message@ == cac_algorithm_message()),
        wrapped_key@.len() > 0 && algorithm == KeyWrapAlgorithm::RsaPkcs1v15 && wrapped_key@.len()
            != 256 ==> (result matches Err(message) && message@
            == "CAC RSA key-management operation failed: "@
            + "RSA-2048 ciphertext must contain exactly 256 bytes; received "@ + decimal(
            wrapped_key@.len(),
        )),
        algorithm == KeyWrapAlgorithm::RsaPkcs1v15 && wrapped_key@.len() == 256 ==> (result matches Ok(
            data,
        ) && data@ == spec_key_transport_request(wrapped_key@)),
{
    if wrapped_key.len() == 0 {
        return Err(String::from_str("wrapped vault key cannot be empty"));
    }
    match algorithm {
        KeyWrapAlgorithm::RsaPkcs1v15 => {
            if wrapped_key.len() != 256 {
                return Err(
                    join3(
                        "CAC RSA key-management operation failed: ",
                        "RSA-2048 ciphertext must contain exactly 256 bytes; received ",
                        decimal_string(wrapped_key.len() as u64).as_str(),
                    ),
                );
            }
            match rsa_key_transport(PivSlot::KeyManagement, wrapped_key) {
                Ok(request) => Ok(request),
                Err(_) => Err(String::from_str("CAC RSA key-management operation failed")),
            }
        },
        KeyWrapAlgorithm::RsaOaepSha256 => Err(
            String::from_str(
                "CAC/PIV vaults do not support RSA-OAEP-SHA256; expected RSA-PKCS1-v1_5",
            ),
        ),
    }
}

/// The vault key in the card's answer to a key-transport request: the
/// PKCS#1 v1.5 padding removed from the encoded message.
pub fn cac_unwrapped_key(encoded_message: &[u8]) -> (result: Result<Vec<u8>, String>)
    ensures
        match spec_decode_pkcs1_v15(encoded_message@) {
            Ok(key) => result matches Ok(bytes) && bytes@ == key,
            Err(problem) => result matches Err(message) && message@
                == "failed to decode CAC RSA result: "@ + problem.spec_message(),
        },
{
    match decode_pkcs1_v15_encoded_message(encoded_message) {
        Ok(key) => Ok(key),
        Err(error) => Err(
            crate::text::join2("failed to decode CAC RSA result: ", error.message().as_str()),
        ),
    }
}

/// The chained GENERAL AUTHENTICATE exchange that carries a key-transport
/// request to the key-management key (RSA-2048), and its first command.
pub fn key_transport_exchange(request: &[u8]) -> (result: (ChainedExchange, Vec<u8>))
    ensures
        result.0.cla == 0x00 && result.0.ins == GENERAL_AUTHENTICATE_INS,
        result.0.p1 == RSA_2048_ALGORITHM_REFERENCE,
        result.0.p2 == PivSlot::KeyManagement.spec_key_reference(),
        result.0.data@ == request@,
        result.0.offset == 0,
{
    ChainedExchange::new(
        0x00,
        GENERAL_AUTHENTICATE_INS,
        RSA_2048_ALGORITHM_REFERENCE,
        PivSlot::KeyManagement.key_reference(),
        request,
    )
}

/// The vault key in the outcome of the key-transport exchange: the data the
/// exchange gathered, or `None` when it failed or the card could not be
/// reached.
pub fn cac_key_from_answer(outcome: Option<&[u8]>) -> (result: Result<Vec<u8>, String>)
    ensures
        outcome is None ==> (result matches Err(message) && message@
            == "CAC RSA key-management operation failed: PIV RSA key-transport operation failed"@),
        outcome matches Some(answer) ==> match spec_key_transport_result(answer@) {
            Err(error) => result matches Err(message) && message@
                == "CAC RSA key-management operation failed: "@ + error.spec_message(),
            Ok(encoded) => match spec_decode_pkcs1_v15(encoded) {
                Ok(key) => result matches Ok(bytes) && bytes@ == key,
                Err(problem) => result matches Err(message) && message@
                    == "failed to decode CAC RSA result: "@ + problem.spec_message(),
            },
        },
{
    match outcome {
        None => Err(
            String::from_str(
                "CAC RSA key-management operation failed: PIV RSA key-transport operation failed",
            ),
        ),
        Some(answer) => match key_transport_result(answer) {
            Err(error) => Err(
                join2("CAC RSA key-management operation failed: ", error.message().as_str()),
            ),
            Ok(encoded) => cac_unwrapped_key(encoded.as_slice()),
        },
    }
}

/// How far connecting to a card has come.
#[derive(Debug, Clone, Copy, PartialEq, Eq, Structural)]
pub enum CacConnectStage {
    /// The SELECT command for the PIV application is out.
    SelectPiv,
    /// The GET DATA command for the key-management certificate is out.
    ReadCertificate,
    /// The VERIFY command with the PIN is out.
    VerifyPin,
    /// Connected, or failed.
    Finished,
}

/// What the caller does next while connecting to a card.
#[derive(Debug)]
pub enum CacConnectStep {
    /// Send this command as a complete exchange (following `61xx` and
    /// `6Cxx` answers) and hand back the response data it gathered.
    Exchange(Vec<u8>),
    /// Send this command once and hand back the card's raw response.
    Transmit(Vec<u8>),
    /// The PIN was accepted; the key-management certificate in DER.
    Connected(Vec<u8>),
    Failed(String),
}

pub open spec fn select_failure_message() -> Seq<char> {
    "failed to select the PIV application: failed to select the PIV application"@
}

pub open spec fn retrieve_failure_message() -> Seq<char> {
    "failed to read the CAC key-management certificate: failed to retrieve Key Management certificate from slot 9D"@
}

pub open spec fn pin_transmit_failure_message() -> Seq<char> {
    "CAC PIN verification failed: failed to transmit PIV PIN verification command"@
}

/// What the answer to GET DATA leads to: the certificate in DER and the
/// VERIFY command for the PIN, or why the connection fails.
pub open spec fn certificate_outcome(data: Seq<u8>, pin: Seq<u8>) -> Result<
    (Seq<u8>, Seq<u8>),
    Seq<char>,
> {
    match spec_read_certificate(data) {
        Err(error) => Err("failed to read the CAC key-management certificate: "@
            + error.spec_message()),
        Ok((encoded, compressed)) => match decoded_der(encoded, compressed) {
            Err(problem) => Err("failed to decode the CAC key-management certificate: "@
                + problem),
            Ok(der) => match pin_error(pin) {
                Some(error) => Err("CAC PIN verification failed: "@ + error.spec_message()),
                None => Ok((der, spec_verify_pin_command(pin))),
            },
        },
    }
}

/// Connecting to a card: select the PIV application, read the slot-9D
/// certificate, verify the PIN once. The caller carries the commands to the
/// card and reports what came back; `None` reports that the exchange failed
/// or the card could not be reached.
pub struct CacConnection {
    stage: CacConnectStage,
    pin: String,
    certificate_der: Vec<u8>,
}

impl CacConnection {
    pub closed spec fn stage(&self) -> CacConnectStage {
        self.stage
    }

    /// The PIN as the bytes the card is given.
    pub closed spec fn pin_bytes(&self) -> Seq<u8> {
        vstd::utf8::encode_utf8(self.pin@)
    }

    /// The certificate read from the card, once read.
    pub closed spec fn certificate(&self) -> Seq<u8> {
        self.certificate_der@
    }

    /// Starts connecting with the cardholder PIN; the first command selects
    /// the PIV application.
    pub fn start(pin: &str) -> (result: (Self, CacConnectStep))
        ensures
            result.0.stage() == CacConnectStage::SelectPiv,
            result.0.pin_bytes() == pin.spec_bytes(),
            result.1 matches CacConnectStep::Exchange(command) && command@ == SELECT_PIV_APDU@,
    {
        let connection = CacConnection {
            stage: CacConnectStage::SelectPiv,
            pin: String::from_str(pin),
            certificate_der: Vec::new(),
        };
        (connection, CacConnectStep::Exchange(select_piv()))
    }

    /// Whether the connection has connected or failed.
    pub fn finished(&self) -> (finished: bool)
        ensures
            finished == (self.stage() == CacConnectStage::Finished),
    {
        self.stage == CacConnectStage::Finished
    }

    /// Takes what came back for the last command and decides what comes
    /// next.
    pub fn advance(&mut self, outcome: Option<&[u8]>) -> (step: CacConnectStep)
        requires
            old(self).stage() != CacConnectStage::Finished,
        ensures
            final(self).pin_bytes() == old(self).pin_bytes(),
            old(self).stage() == CacConnectStage::SelectPiv ==> match outcome {
                None => final(self).stage() == CacConnectStage::Finished && (step matches CacConnectStep::Failed(
                    message,
                ) && message@ == select_failure_message()),
                Some(_) => final(self).stage() == CacConnectStage::ReadCertificate && (step matches CacConnectStep::Exchange(
                    command,
                ) && command@ == spec_get_data_apdu(
                    PivSlot::KeyManagement.spec_certificate_object(),
                )),
            },
            old(self).stage() == CacConnectStage::ReadCertificate ==> match outcome {
                None => final(self).stage() == CacConnectStage::Finished && (step matches CacConnectStep::Failed(
                    message,
                ) && message@ == retrieve_failure_message()),
                Some(data) => match certificate_outcome(data@, old(self).pin_bytes()) {
                    Err(problem) => final(self).stage() == CacConnectStage::Finished && (step matches CacConnectStep::Failed(
                        message,
                    ) && message@ == problem),
                    Ok((der, command)) => final(self).stage() == CacConnectStage::VerifyPin
                        && final(self).certificate() == der && (step matches CacConnectStep::Transmit(
                        sent,
                    ) && sent@ == command),
                },
            },
            old(self).stage() == CacConnectStage::VerifyPin ==> final(self).stage()
                == CacConnectStage::Finished && match outcome {
                None => step matches CacConnectStep::Failed(message) && message@
                    == pin_transmit_failure_message(),
                Some(response) => match spec_pin_status(response@) {
                    Ok(()) => step matches CacConnectStep::Connected(der) && der@
                        == old(self).certificate(),
                    Err(error) => step matches CacConnectStep::Failed(message) && message@
                        == "CAC PIN verification failed: "@ + error.spec_message(),
                },
            },
    {
        match self.stage {
            CacConnectStage::SelectPiv => match outcome {
                None => {
                    self.stage = CacConnectStage::Finished;
                    CacConnectStep::Failed(
                        String::from_str(
                            "failed to select the PIV application: failed to select the PIV application",
                        ),
                    )
                },
                Some(_) => {
                    self.stage = CacConnectStage::ReadCertificate;
                    CacConnectStep::Exchange(
                        build_get_data_apdu(PivSlot::KeyManagement.certificate_object()),
                    )
                },
            },
            CacConnectStage::ReadCertificate => match outcome {
                None => {
                    self.stage = CacConnectStage::Finished;
                    CacConnectStep::Failed(
                        String::from_str(
                            "failed to read the CAC key-management certificate: failed to retrieve Key Management certificate from slot 9D",
                        ),
                    )
                },
                Some(data) => self.certificate_read(data),
            },
            CacConnectStage::VerifyPin => {
                self.stage = CacConnectStage::Finished;
                match outcome {
                    None => CacConnectStep::Failed(
                        String::from_str(
                            "CAC PIN verification failed: failed to transmit PIV PIN verification command",
                        ),
                    ),
                    Some(response) => match pin_verification_status(response) {
                        Ok(()) => CacConnectStep::Connected(self.certificate_der.clone()),
                        Err(error) => CacConnectStep::Failed(
                            join2("CAC PIN verification failed: ", error.message().as_str()),
                        ),
                    },
                }
            },
            CacConnectStage::Finished => CacConnectStep::Failed(String::new()),
        }
    }

    /// The GET DATA answer arrived: read and decode the certificate, then
    /// present the PIN.
    fn certificate_read(&mut self, data: &[u8]) -> (step: CacConnectStep)
        requires
            old(self).stage() == CacConnectStage::ReadCertificate,
        ensures
            final(self).pin_bytes() == old(self).pin_bytes(),
            match certificate_outcome(data@, old(self).pin_bytes()) {
                Err(problem) => final(self).stage() == CacConnectStage::Finished && (step matches CacConnectStep::Failed(
                    message,
                ) && message@ == problem),
                Ok((der, command)) => final(self).stage() == CacConnectStage::VerifyPin
                    && final(self).certificate() == der && (step matches CacConnectStep::Transmit(
                    sent,
                ) && sent@ == command),
            },
    {
        let piv_certificate = match read_certificate(PivSlot::KeyManagement, data) {
            Ok(certificate) => certificate,
            Err(error) => {
                self.stage = CacConnectStage::Finished;
                return CacConnectStep::Failed(
                    join2(
                        "failed to read the CAC key-management certificate: ",
                        error.message().as_str(),
                    ),
                );
            },
        };
        let certificate_der = match decode_certificate(&piv_certificate) {
            Ok(der) => der,
            Err(problem) => {
                self.stage = CacConnectStage::Finished;
                return CacConnectStep::Failed(
                    join2("failed to decode the CAC key-management certificate: ", problem.as_str()),
                );
            },
        };
        match verify_pin(self.pin.as_str()) {
            Ok(command) => {
                self.certificate_der = certificate_der;
                self.stage = CacConnectStage::VerifyPin;
                CacConnectStep::Transmit(command)
            },
            Err(error) => {
                self.stage = CacConnectStage::Finished;
                CacConnectStep::Failed(
                    join2("CAC PIN verification failed: ", error.message().as_str()),
                )
            },
        }
    }
}

} // verus!
