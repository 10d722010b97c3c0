//! The identity a vault records of the certificate that protects it.
use vstd::prelude::*;

use crate::text::{hex_byte, hex_digit_char, join2, reports, str_eq};

verus! {

/// The identifying fields of an X.509 certificate, as a vault records them.
#[derive(Debug, Clone, PartialEq, Eq)]
pub struct CertificateIdentity {
    /// Upper-case hexadecimal SHA-256 of the DER certificate, bytes joined
    /// by colons.
    pub sha256_fingerprint: String,
    pub subject: String,
    pub issuer: String,
    pub serial_number: String,
    pub not_before: String,
    pub not_after: String,
}

#[verifier::external_type_specification]
#[verifier::external_body]
pub struct ExX509(openssl::x509::X509);

/// One entry of a distinguished name, as OpenSSL reports it.
pub struct NameEntry {
    /// The short name of the attribute (such as "CN"), if OpenSSL has one.
    pub short_name: Option<String>,
    /// The value as UTF-8, if it converts.
    pub text: Option<String>,
    /// The value's raw bytes.
    pub raw: Vec<u8>,
}

/// `X509::from_der` (openssl); a failure is given as OpenSSL's message.
/// What OpenSSL accepts and its messages depend on the OpenSSL version, so
/// no clause states them.
#[verifier::external_body]
pub(crate) fn parse_x509(der: &[u8]) -> (result: Result<openssl::x509::X509, String>) {
    match openssl::x509::X509::from_der(der) {
        Ok(certificate) => Ok(certificate),
        Err(error) => Err(error.to_string()),
    }
}

/// `X509Ref::digest` with SHA-256 (openssl): a 32-byte digest.
#[verifier::external_body]
fn x509_sha256(certificate: &openssl::x509::X509) -> (result: Result<Vec<u8>, String>)
    ensures
        result matches Ok(digest) ==> digest@.len() == 32,
{
    match certificate.digest(openssl::hash::MessageDigest::sha256()) {
        Ok(digest) => Ok(digest.to_vec()),
        Err(error) => Err(error.to_string()),
    }
}

/// The serial number as a big number: `Asn1IntegerRef::to_bn` of
/// `X509Ref::serial_number` (openssl).
#[verifier::external_body]
fn x509_serial(certificate: &openssl::x509::X509) -> (result: Result<openssl::bn::BigNum, String>) {
    certificate.serial_number().to_bn().map_err(|error| error.to_string())
}

/// `BigNumRef::to_hex_str` (openssl).
#[verifier::external_body]
fn bignum_hex(number: &openssl::bn::BigNum) -> (result: Result<String, String>) {
    match number.to_hex_str() {
        Ok(text) => Ok(text.to_string()),
        Err(error) => Err(error.to_string()),
    }
}

/// The entries of the subject name (`X509Ref::subject_name`, openssl).
#[verifier::external_body]
fn x509_subject(certificate: &openssl::x509::X509) -> (entries: Vec<NameEntry>) {
    let mut entries = Vec::new();
    for entry in certificate.subject_name().entries() {
        entries.push(NameEntry {
            short_name: entry.object().nid().short_name().ok().map(|name| name.to_string()),
            text: entry.data().to_string().ok(),
            raw: entry.data().as_slice().to_vec(),
        });
    }
    entries
}

/// The entries of the issuer name (`X509Ref::issuer_name`, openssl).
#[verifier::external_body]
fn x509_issuer(certificate: &openssl::x509::X509) -> (entries: Vec<NameEntry>) {
    let mut entries = Vec::new();
    for entry in certificate.issuer_name().entries() {
        entries.push(NameEntry {
            short_name: entry.object().nid().short_name().ok().map(|name| name.to_string()),
            text: entry.data().to_string().ok(),
            raw: entry.data().as_slice().to_vec(),
        });
    }
    entries
}

/// The start of validity as OpenSSL prints it (`X509Ref::not_before`).
#[verifier::external_body]
fn x509_not_before(certificate: &openssl::x509::X509) -> (date: String) {
    certificate.not_before().to_string()
}

/// The end of validity as OpenSSL prints it (`X509Ref::not_after`).
#[verifier::external_body]
fn x509_not_after(certificate: &openssl::x509::X509) -> (date: String) {
    certificate.not_after().to_string()
}

/// Upper-case hexadecimal bytes joined by colons ("0A:FF").
pub open spec fn colon_hex(bytes: Seq<u8>) -> Seq<char>
    decreases bytes.len(),
{
    if bytes.len() == 0 {
        Seq::empty()
    } else if bytes.len() == 1 {
        hex_byte(bytes[0])
    } else {
        colon_hex(bytes.drop_last()) + ":"@ + hex_byte(bytes.last())
    }
}

pub fn hex_upper(bytes: &[u8]) -> (text: String)
    ensures
        text@ == colon_hex(bytes@),
{
    let mut text = String::new();
    let mut index: usize = 0;
    assert(text@ =~= colon_hex(bytes@.take(0)));
    while index < bytes.len()
        invariant
            index <= bytes@.len(),
            text@ == colon_hex(bytes@.take(index as int)),
        decreases bytes@.len() - index,
    {
        let byte = bytes[index];
        let ghost before = text@;
        if index > 0 {
            text.append(":");
        }
        let pair = [hex_digit_char(byte / 16), hex_digit_char(byte % 16)];
        let pair_text = crate::text::string_from_chars(pair.as_slice());
        text.append(pair_text.as_str());
        proof {
            let prefix = bytes@.take(index + 1);
            assert(prefix.drop_last() =~= bytes@.take(index as int));
            assert(prefix.last() == byte);
            assert(pair_text@ =~= hex_byte(byte));
            if index == 0 {
                assert(before =~= Seq::<char>::empty());
            }
        }
        index = index + 1;
    }
    assert(bytes@.take(bytes@.len() as int) =~= bytes@);
    text
}

/// How a name entry is written: `FIELD=value`, with "UNKNOWN" for a field
/// without a short name and the raw bytes in hexadecimal for a value that is
/// not UTF-8.
pub open spec fn entry_text(entry: NameEntry) -> Seq<char> {
    (match entry.short_name {
        Some(name) => name@,
        None => "UNKNOWN"@,
    }) + "="@ + match entry.text {
        Some(text) => text@,
        None => colon_hex(entry.raw@),
    }
}

/// A distinguished name: its entries joined by ", ".
pub open spec fn name_text(entries: Seq<NameEntry>) -> Seq<char>
    decreases entries.len(),
{
    if entries.len() == 0 {
        Seq::empty()
    } else if entries.len() == 1 {
        entry_text(entries[0])
    } else {
        name_text(entries.drop_last()) + ", "@ + entry_text(entries.last())
    }
}

fn format_entry(entry: &NameEntry) -> (text: String)
    ensures
        text@ == entry_text(*entry),
{
    let mut text = match &entry.short_name {
        Some(name) => name.clone(),
        None => String::from_str("UNKNOWN"),
    };
    text.append("=");
    match &entry.text {
        Some(value) => text.append(value.as_str()),
        None => text.append(hex_upper(entry.raw.as_slice()).as_str()),
    }
    text
}

/// A distinguished name as the vault records it.
pub fn format_name(entries: &[NameEntry]) -> (text: String)
    ensures
        text@ == name_text(entries@),
{
    let mut text = String::new();
    let mut index: usize = 0;
    assert(text@ =~= name_text(entries@.take(0)));
    while index < entries.len()
        invariant
            index <= entries@.len(),
            text@ == name_text(entries@.take(index as int)),
        decreases entries@.len() - index,
    {
        let ghost before = text@;
        if index > 0 {
            text.append(", ");
        }
        let entry_part = format_entry(&entries[index]);
        text.append(entry_part.as_str());
        proof {
            let prefix = entries@.take(index + 1);
            assert(prefix.drop_last() =~= entries@.take(index as int));
            assert(prefix.last() == entries@[index as int]);
            if index == 0 {
                assert(before =~= Seq::<char>::empty());
            }
        }
        index = index + 1;
    }
    assert(entries@.take(entries@.len() as int) =~= entries@);
    text
}

/// The identity made of a certificate's parts: the fingerprint in
/// colon-separated hexadecimal, the names written out, the serial and dates
/// as given.
pub open spec fn identity_of(
    identity: CertificateIdentity,
    fingerprint: Seq<u8>,
    serial_hex: Seq<char>,
    subject: Seq<NameEntry>,
    issuer: Seq<NameEntry>,
    not_before: Seq<char>,
    not_after: Seq<char>,
) -> bool {
    &&& identity.sha256_fingerprint@ == colon_hex(fingerprint)
    &&& identity.subject@ == name_text(subject)
    &&& identity.issuer@ == name_text(issuer)
    &&& identity.serial_number@ == serial_hex
    &&& identity.not_before@ == not_before
    &&& identity.not_after@ == not_after
}

/// Builds a certificate identity from its parts.
pub fn identity_from_parts(
    fingerprint: &[u8],
    serial_hex: String,
    subject: &[NameEntry],
    issuer: &[NameEntry],
    not_before: String,
    not_after: String,
) -> (identity: CertificateIdentity)
    ensures
        identity_of(identity, fingerprint@, serial_hex@, subject@, issuer@, not_before@, not_after@),
{
    CertificateIdentity {
        sha256_fingerprint: hex_upper(fingerprint),
        subject: format_name(subject),
        issuer: format_name(issuer),
        serial_number: serial_hex,
        not_before,
        not_after,
    }
}

/// The identity is made of some certificate's parts, with a 32-byte
/// fingerprint.
pub open spec fn has_certificate_parts(identity: CertificateIdentity) -> bool {
    exists|
        fingerprint: Seq<u8>,
        serial_hex: Seq<char>,
        subject: Seq<NameEntry>,
        issuer: Seq<NameEntry>,
        not_before: Seq<char>,
        not_after: Seq<char>,
    |
        fingerprint.len() == 32 && #[trigger] identity_of(
            identity,
            fingerprint,
            serial_hex,
            subject,
            issuer,
            not_before,
            not_after,
        )
}

/// The errors of reading a certificate's identity: OpenSSL could not
/// compute the fingerprint, or not write out the serial number.
pub open spec fn identity_failure(message: Seq<char>) -> bool {
    ||| reports(message, "failed to calculate certificate fingerprint: "@)
    ||| reports(message, "failed to read certificate serial number: "@)
}

/// The identity of a parsed certificate: OpenSSL supplies the SHA-256
/// digest, serial number, names and dates, and `identity_from_parts` writes
/// them out.
pub fn certificate_identity(certificate: &openssl::x509::X509) -> (result: Result<
    CertificateIdentity,
    String,
>)
    ensures
        result matches Ok(identity) ==> has_certificate_parts(identity),
        result matches Err(message) ==> identity_failure(message@),
{
    let fingerprint = match x509_sha256(certificate) {
        Ok(digest) => digest,
        Err(error) => {
            return Err(join2("failed to calculate certificate fingerprint: ", error.as_str()));
        },
    };
    let serial_hex = match x509_serial(certificate) {
        Ok(serial) => match bignum_hex(&serial) {
            Ok(text) => text,
            Err(error) => {
                return Err(join2("failed to read certificate serial number: ", error.as_str()));
            },
        },
        Err(error) => {
            return Err(join2("failed to read certificate serial number: ", error.as_str()));
        },
    };
    let subject = x509_subject(certificate);
    let issuer = x509_issuer(certificate);
    let not_before = x509_not_before(certificate);
    let not_after = x509_not_after(certificate);
    let ghost parts = (fingerprint@, serial_hex@, subject@, issuer@, not_before@, not_after@);
    let identity = identity_from_parts(
        fingerprint.as_slice(),
        serial_hex,
        subject.as_slice(),
        issuer.as_slice(),
        not_before,
        not_after,
    );
    assert(parts.0.len() == 32);
    assert(identity_of(identity, parts.0, parts.1, parts.2, parts.3, parts.4, parts.5));
    assert(has_certificate_parts(identity));
    Ok(identity)
}

/// The identity of a DER certificate.
pub fn certificate_identity_from_der(certificate_der: &[u8]) -> (result: Result<
    CertificateIdentity,
    String,
>)
    ensures
        result matches Ok(identity) ==> has_certificate_parts(identity),
        result matches Err(message) ==> reports(message@, "failed to parse X.509 certificate: "@)
            || identity_failure(message@),
{
    let certificate = match parse_x509(certificate_der) {
        Ok(certificate) => certificate,
        Err(error) => {
            return Err(join2("failed to parse X.509 certificate: ", error.as_str()));
        },
    };
    certificate_identity(&certificate)
}

pub open spec fn mismatch_message(expected: Seq<char>, received: Seq<char>) -> Seq<char> {
    "certificate fingerprint mismatch: expected "@ + expected + ", received "@ + received
}

/// Accepts a certificate identity when its fingerprint is the expected one.
pub fn check_fingerprint(expected: &CertificateIdentity, actual: CertificateIdentity) -> (result:
    Result<CertificateIdentity, String>)
    ensures
        actual.sha256_fingerprint@ == expected.sha256_fingerprint@ ==> result == Ok::<
            CertificateIdentity,
            String,
        >(actual),
        actual.sha256_fingerprint@ != expected.sha256_fingerprint@ ==> (result matches Err(
            message,
        ) && message@ == mismatch_message(
            expected.sha256_fingerprint@,
            actual.sha256_fingerprint@,
        )),
{
    if !str_eq(actual.sha256_fingerprint.as_str(), expected.sha256_fingerprint.as_str()) {
        let mut message = join2(
            "certificate fingerprint mismatch: expected ",
            expected.sha256_fingerprint.as_str(),
        );
        message.append(", received ");
        message.append(actual.sha256_fingerprint.as_str());
        return Err(message);
    }
    Ok(actual)
}

/// What checking a certificate's identity gives: a failure to read it, as
/// it is; the identity read when its fingerprint is the expected one; else
/// the mismatch.
pub open spec fn checked_identity(
    expected: CertificateIdentity,
    read: Result<CertificateIdentity, String>,
) -> Result<CertificateIdentity, Seq<char>> {
    match read {
        Err(message) => Err(message@),
        Ok(actual) => if actual.sha256_fingerprint@ == expected.sha256_fingerprint@ {
            Ok(actual)
        } else {
            Err(mismatch_message(expected.sha256_fingerprint@, actual.sha256_fingerprint@))
        },
    }
}

/// A checked identity with its error taken as text.
pub open spec fn identity_outcome(result: Result<CertificateIdentity, String>) -> Result<
    CertificateIdentity,
    Seq<char>,
> {
    match result {
        Ok(identity) => Ok(identity),
        Err(message) => Err(message@),
    }
}

/// Reads a DER certificate's identity and accepts it only when its
/// fingerprint is the expected one.
///
/// The result is the check of what was read from the certificate, which
/// OpenSSL reads: `Ok` exactly when that read succeeds and its fingerprint
/// is the expected one.
pub fn verify_certificate_identity(expected: &CertificateIdentity, certificate_der: &[u8]) -> (result:
    Result<CertificateIdentity, String>)
    ensures
        exists|read: Result<CertificateIdentity, String>|
            {
                &&& #[trigger] checked_identity(*expected, read) == identity_outcome(result)
                &&& read matches Err(message) ==> reports(
                    message@,
                    "failed to parse X.509 certificate: "@,
                ) || identity_failure(message@)
                &&& read matches Ok(actual) ==> has_certificate_parts(actual)
            },
        result matches Ok(actual) ==> actual.sha256_fingerprint@ == expected.sha256_fingerprint@
            && has_certificate_parts(actual),
        result matches Err(message) ==> reports(message@, "failed to parse X.509 certificate: "@)
            || identity_failure(message@) || reports(
            message@,
            "certificate fingerprint mismatch: expected "@ + expected.sha256_fingerprint@
                + ", received "@,
        ),
{
    let read = certificate_identity_from_der(certificate_der);
    let ghost witness = read;
    let result = match read {
        Ok(actual) => check_fingerprint(expected, actual),
        Err(error) => Err(error),
    };
    assert(checked_identity(*expected, witness) == identity_outcome(result));
    result
}

} // verus!
