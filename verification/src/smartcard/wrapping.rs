use vstd::prelude::*;

use rsa::pkcs8::DecodePublicKey;
use rsa::sha2::Digest;

use crate::certificate::identity::{colon_hex, hex_upper};
use crate::text::{decimal, decimal_string, join2, join3};
use crate::vault::crypto::{base64_unpadded, encode_unpadded};

verus! {

/// The object identifier of `rsaEncryption`.
pub const RSA_ENCRYPTION_OID: &'static str = "1.2.840.113549.1.1.1";

/// The PIV slot whose key-management key protects a CAC-backed vault.
pub const CAC_KEY_MANAGEMENT_SLOT: &'static str = "9D";

/// The name a CAC-wrapped vault key records for its wrapping algorithm.
pub const CAC_WRAP_ALGORITHM_RSA_OAEP_SHA256: &'static str = "rsa-oaep-sha256";

/// A vault key wrapped under the key-management certificate of a card.
#[derive(Debug, Clone)]
pub struct WrappedCacKey {
    pub slot: String,
    /// Upper-case colon-separated hexadecimal SHA-256 of the certificate.
    pub certificate_sha256: String,
    pub algorithm: String,
    /// The RSA-OAEP ciphertext in standard unpadded base64.
    pub wrapped_key: String,
}

/// What `x509_parser::parse_x509_certificate` makes of DER bytes: the
/// number of bytes left after the certificate, the dotted object identifier
/// of its public-key algorithm and the raw DER of its SubjectPublicKeyInfo;
/// or the parser's error message.
pub uninterp spec fn x509_key_info(der: Seq<u8>) -> Result<(nat, Seq<char>, Seq<u8>), Seq<char>>;

/// The SHA-256 digest of bytes (the `sha2` crate).
pub uninterp spec fn sha256_digest(data: Seq<u8>) -> Seq<u8>;

pub open spec fn key_info_view(result: Result<(usize, String, Vec<u8>), String>) -> Result<
    (nat, Seq<char>, Seq<u8>),
    Seq<char>,
> {
    match result {
        Ok((remaining, oid, spki)) => Ok((remaining as nat, oid@, spki@)),
        Err(message) => Err(message@),
    }
}

/// `x509_parser::parse_x509_certificate`, with the parts of the result that
/// key wrapping reads: the length of the remaining input, the public-key
/// algorithm (`Oid` written by its `Display`) and `SubjectPublicKeyInfo::raw`.
#[verifier::external_body]
pub(crate) fn parse_x509_key_info(der: &[u8]) -> (result: Result<(usize, String, Vec<u8>), String>)
    ensures
        key_info_view(result) == x509_key_info(der@),
{
    match x509_parser::parse_x509_certificate(der) {
        Ok((remaining, certificate)) => {
            let info = certificate.public_key();
            Ok((remaining.len(), info.algorithm.algorithm.to_string(), info.raw.to_vec()))
        },
        Err(error) => Err(error.to_string()),
    }
}

/// `Sha256::digest` (sha2, as re-exported by rsa).
#[verifier::external_body]
fn sha256(data: &[u8]) -> (digest: Vec<u8>)
    ensures
        digest@ == sha256_digest(data@),
{
    rsa::sha2::Sha256::digest(data).to_vec()
}

#[verifier::external_type_specification]
#[verifier::external_body]
pub struct ExRsaPublicKey(rsa::RsaPublicKey);

/// `RsaPublicKey::from_public_key_der` (rsa, through pkcs8's
/// `DecodePublicKey`); `None` where the SubjectPublicKeyInfo is refused.
#[verifier::external_body]
pub(crate) fn rsa_public_key_from_spki(spki: &[u8]) -> (key: Option<rsa::RsaPublicKey>) {
    rsa::RsaPublicKey::from_public_key_der(spki).ok()
}

/// `RsaPublicKey::encrypt` (rsa) with `Oaep::new::<Sha256>()` and the
/// operating system's random generator; `None` where rsa refuses the
/// message. The padding is random, so nothing is stated of the ciphertext.
#[verifier::external_body]
fn rsa_oaep_sha256_encrypt(key: &rsa::RsaPublicKey, message: &[u8]) -> (ciphertext: Option<
    Vec<u8>,
>) {
    let padding = rsa::Oaep::new::<rsa::sha2::Sha256>();
    key.encrypt(&mut rand::rngs::OsRng, padding, message).ok()
}

pub open spec fn unsupported_algorithm_message(oid: Seq<char>) -> Seq<char> {
    "unsupported CAC public-key algorithm "@ + oid + "; expected RSA ("@ + RSA_ENCRYPTION_OID@
        + ")"@
}

/// Why a parsed certificate cannot wrap a key for a card, if it cannot:
/// bytes left after the certificate, or a public key that is not RSA.
pub open spec fn spec_key_info_problem(remaining: nat, oid: Seq<char>) -> Option<Seq<char>> {
    if remaining > 0 {
        Some(decimal(remaining) + " trailing byte(s) remained after parsing the CAC certificate"@)
    } else if oid != RSA_ENCRYPTION_OID@ {
        Some(unsupported_algorithm_message(oid))
    } else {
        None
    }
}

/// Checks what the parser found in a card's certificate before its key
/// wraps a vault key.
pub fn check_cac_key_info(remaining: usize, algorithm_oid: &str) -> (result: Result<(), String>)
    ensures
        match spec_key_info_problem(remaining as nat, algorithm_oid@) {
            None => result is Ok,
            Some(problem) => result matches Err(message) && message@ == problem,
        },
{
    if remaining > 0 {
        return Err(
            join2(
                decimal_string(remaining as u64).as_str(),
                " trailing byte(s) remained after parsing the CAC certificate",
            ),
        );
    }
    if !crate::text::str_eq(algorithm_oid, RSA_ENCRYPTION_OID) {
        let mut message = join3(
            "unsupported CAC public-key algorithm ",
            algorithm_oid,
            "; expected RSA (",
        );
        message.append(RSA_ENCRYPTION_OID);
        message.append(")");
        return Err(message);
    }
    Ok(())
}

/// The record of a wrapped key: slot 9D, the certificate's fingerprint,
/// RSA-OAEP-SHA256 and the ciphertext in unpadded base64.
pub open spec fn wrapped_cac_key_of(
    wrapped: WrappedCacKey,
    certificate_der: Seq<u8>,
    ciphertext: Seq<u8>,
) -> bool {
    &&& wrapped.slot@ == CAC_KEY_MANAGEMENT_SLOT@
    &&& wrapped.certificate_sha256@ == colon_hex(sha256_digest(certificate_der))
    &&& wrapped.algorithm@ == CAC_WRAP_ALGORITHM_RSA_OAEP_SHA256@
    &&& wrapped.wrapped_key@ == base64_unpadded(ciphertext)
}

/// The record of a wrapped key for some ciphertext of the card's key.
pub open spec fn wraps_cac_key(wrapped: WrappedCacKey, certificate_der: Seq<u8>) -> bool {
    exists|ciphertext: Seq<u8>| wrapped_cac_key_of(wrapped, certificate_der, ciphertext)
}

/// Wraps a vault key with RSA-OAEP-SHA256 under the RSA public key of a
/// card's key-management certificate.
pub fn wrap_key_with_cac_certificate(certificate_der: &[u8], vault_key: &[u8]) -> (result: Result<
    WrappedCacKey,
    String,
>)
    ensures
        vault_key@.len() == 0 ==> (result matches Err(message) && message@
            == "vault key cannot be empty"@),
        vault_key@.len() > 0 ==> match x509_key_info(certificate_der@) {
            Err(problem) => result matches Err(message) && message@
                == "failed to parse CAC key-management certificate: "@ + problem,
            Ok((remaining, oid, _)) => match spec_key_info_problem(remaining, oid) {
                Some(problem) => result matches Err(message) && message@ == problem,
                None => result matches Ok(wrapped) ==> wraps_cac_key(wrapped, certificate_der@),
            },
        },
{
    if vault_key.len() == 0 {
        return Err(String::from_str("vault key cannot be empty"));
    }
    let (remaining, algorithm_oid, spki) = match parse_x509_key_info(certificate_der) {
        Ok(info) => info,
        Err(error) => {
            return Err(join2("failed to parse CAC key-management certificate: ", error.as_str()));
        },
    };
    match check_cac_key_info(remaining, algorithm_oid.as_str()) {
        Ok(()) => {},
        Err(message) => {
            return Err(message);
        },
    }
    let public_key = match rsa_public_key_from_spki(spki.as_slice()) {
        Some(key) => key,
        None => {
            return Err(String::from_str("failed to decode RSA public key from CAC certificate"));
        },
    };
    let ciphertext = match rsa_oaep_sha256_encrypt(&public_key, vault_key) {
        Some(ciphertext) => ciphertext,
        None => {
            return Err(String::from_str("failed to wrap vault key with CAC RSA public key"));
        },
    };
    let digest = sha256(certificate_der);
    let wrapped = WrappedCacKey {
        slot: String::from_str(CAC_KEY_MANAGEMENT_SLOT),
        certificate_sha256: hex_upper(digest.as_slice()),
        algorithm: String::from_str(CAC_WRAP_ALGORITHM_RSA_OAEP_SHA256),
        wrapped_key: encode_unpadded(ciphertext.as_slice()),
    };
    assert(wrapped_cac_key_of(wrapped, certificate_der@, ciphertext@));
    Ok(wrapped)
}

/// Reasons an RSAES-PKCS1-v1_5 encoded message is rejected.
#[derive(Clone, Copy, Debug, PartialEq, Eq)]
pub enum Pkcs1Error {
    TooShort { length: usize },
    MissingPadding,
    MissingSeparator,
    ShortPadding { length: usize },
    EmptyMessage,
}

impl Pkcs1Error {
    pub open spec fn spec_message(self) -> Seq<char> {
        match self {
            Pkcs1Error::TooShort { length } => "PKCS#1 encoded message is too short: "@ + decimal(
                length as nat,
            ) + " bytes"@,
            Pkcs1Error::MissingPadding => "PIV RSA result does not contain PKCS#1 v1.5 encryption padding"@,
            Pkcs1Error::MissingSeparator => "PKCS#1 encoded message does not contain a padding separator"@,
            Pkcs1Error::ShortPadding { length } => "PKCS#1 padding contains only "@ + decimal(
                length as nat,
            ) + " byte(s); expected at least 8"@,
            Pkcs1Error::EmptyMessage => "PKCS#1 encoded message contains an empty plaintext"@,
        }
    }

    /// The error as a sentence.
    pub fn message(&self) -> (text: String)
        ensures
            text@ == self.spec_message(),
    {
        match self {
            Pkcs1Error::TooShort { length } => join3(
                "PKCS#1 encoded message is too short: ",
                decimal_string(*length as u64).as_str(),
                " bytes",
            ),
            Pkcs1Error::MissingPadding => String::from_str(
                "PIV RSA result does not contain PKCS#1 v1.5 encryption padding",
            ),
            Pkcs1Error::MissingSeparator => String::from_str(
                "PKCS#1 encoded message does not contain a padding separator",
            ),
            Pkcs1Error::ShortPadding { length } => join3(
                "PKCS#1 padding contains only ",
                decimal_string(*length as u64).as_str(),
                " byte(s); expected at least 8",
            ),
            Pkcs1Error::EmptyMessage => String::from_str(
                "PKCS#1 encoded message contains an empty plaintext",
            ),
        }
    }
}

/// The index of the first zero byte of `s` at or after `from`.
pub open spec fn first_zero_from(s: Seq<u8>, from: int) -> Option<int>
    decreases s.len() - from,
{
    if from < 0 || from >= s.len() {
        None
    } else if s[from] == 0 {
        Some(from)
    } else {
        first_zero_from(s, from + 1)
    }
}

/// In `s`, the bytes from `from` up to `zero` are not zero and `s[zero]`
/// is: the first zero from `from` is at `zero`.
proof fn lemma_first_zero_at(s: Seq<u8>, from: int, zero: int)
    requires
        0 <= from <= zero < s.len(),
        s[zero] == 0,
        forall|i: int| from <= i < zero ==> s[i] != 0,
    ensures
        first_zero_from(s, from) == Some(zero),
    decreases zero - from,
{
    if from < zero {
        lemma_first_zero_at(s, from + 1, zero);
    }
}

/// Removing the padding gives back the message that was padded: for a
/// padding string of at least eight non-zero bytes and a non-empty message,
/// `00 02 PS 00 M` decodes to `M`.
pub proof fn lemma_pkcs1_v15_round_trip(padding: Seq<u8>, message: Seq<u8>)
    requires
        padding.len() >= 8,
        forall|i: int| 0 <= i < padding.len() ==> padding[i] != 0,
        message.len() > 0,
    ensures
        spec_decode_pkcs1_v15(seq![0x00u8, 0x02u8] + padding + seq![0x00u8] + message) == Ok::<
            Seq<u8>,
            Pkcs1Error,
        >(message),
{
    let encoded = seq![0x00u8, 0x02u8] + padding + seq![0x00u8] + message;
    let separator: int = 2 + padding.len() as int;
    assert forall|i: int| 2 <= i < separator implies encoded[i] != 0 by {
        assert(encoded[i] == padding[i - 2]);
    }
    lemma_first_zero_at(encoded, 2, separator);
    assert(encoded.subrange(separator + 1, encoded.len() as int) =~= message);
}

/// The plaintext of an encoded message `00 02 PS 00 M`, where the padding
/// string PS holds at least eight non-zero bytes and M is not empty.
pub open spec fn spec_decode_pkcs1_v15(encoded: Seq<u8>) -> Result<Seq<u8>, Pkcs1Error> {
    if encoded.len() < 11 {
        Err(Pkcs1Error::TooShort { length: encoded.len() as usize })
    } else if encoded[0] != 0x00 || encoded[1] != 0x02 {
        Err(Pkcs1Error::MissingPadding)
    } else {
        match first_zero_from(encoded, 2) {
            None => Err(Pkcs1Error::MissingSeparator),
            Some(separator) => {
                if separator - 2 < 8 {
                    Err(Pkcs1Error::ShortPadding { length: (separator - 2) as usize })
                } else if separator + 1 == encoded.len() {
                    Err(Pkcs1Error::EmptyMessage)
                } else {
                    Ok(encoded.subrange(separator + 1, encoded.len() as int))
                }
            },
        }
    }
}

/// Removes RSAES-PKCS1-v1_5 encryption padding from the encoded message
/// that the card's RSA private-key operation returns.
pub fn decode_pkcs1_v15_encoded_message(encoded_message: &[u8]) -> (result: Result<
    Vec<u8>,
    Pkcs1Error,
>)
    ensures
        match (result, spec_decode_pkcs1_v15(encoded_message@)) {
            (Ok(message), Ok(expected)) => message@ == expected,
            (Err(a), Err(b)) => a == b,
            _ => false,
        },
{
    if encoded_message.len() < 11 {
        return Err(Pkcs1Error::TooShort { length: encoded_message.len() });
    }
    if encoded_message[0] != 0x00 || encoded_message[1] != 0x02 {
        return Err(Pkcs1Error::MissingPadding);
    }
    let mut separator: usize = 2;
    while separator < encoded_message.len() && encoded_message[separator] != 0x00
        invariant
            2 <= separator <= encoded_message@.len(),
            first_zero_from(encoded_message@, 2) == first_zero_from(
                encoded_message@,
                separator as int,
            ),
        decreases encoded_message@.len() - separator,
    {
        separator = separator + 1;
    }
    if separator == encoded_message.len() {
        return Err(Pkcs1Error::MissingSeparator);
    }
    let padding_length = separator - 2;
    if padding_length < 8 {
        return Err(Pkcs1Error::ShortPadding { length: padding_length });
    }
    if separator + 1 == encoded_message.len() {
        return Err(Pkcs1Error::EmptyMessage);
    }
    let message = vstd::slice::slice_subrange(
        encoded_message,
        separator + 1,
        encoded_message.len(),
    );
    Ok(vstd::slice::slice_to_vec(message))
}

} // verus!
