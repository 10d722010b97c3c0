//! The certificate a PIV card holds, which may be gzip-compressed.
use vstd::prelude::*;

use std::io::Read;

use crate::smartcard::piv::PivCertificate;
use crate::text::{decimal, decimal_string, join2, join3};

verus! {

/// The most bytes a compressed certificate may expand to.
pub const MAX_DECOMPRESSED_CERTIFICATE_SIZE: u64 = 1048576;

/// What gzip decompression of `data`, stopped after `limit` bytes of
/// output, gives: the output, or the decoder's error.
pub uninterp spec fn gunzipped(data: Seq<u8>, limit: u64) -> Result<Seq<u8>, ()>;

/// `flate2::read::GzDecoder` over `data`, read to the end through
/// `Read::take(limit)`: the named result, never longer than `limit`.
#[verifier::external_body]
fn gunzip_limited(data: &[u8], limit: u64) -> (result: Result<Vec<u8>, ()>)
    ensures
        match gunzipped(data@, limit) {
            Ok(bytes) => result matches Ok(output) && output@ == bytes && bytes.len() <= limit,
            Err(()) => result is Err,
        },
{
    let mut output = Vec::new();
    match flate2::read::GzDecoder::new(data).take(limit).read_to_end(&mut output) {
        Ok(_) => Ok(output),
        Err(_) => Err(()),
    }
}

/// The DER certificate of a certificate object's bytes, as stored or
/// gzip-compressed, or why it cannot be had.
pub open spec fn decoded_der(encoded: Seq<u8>, compressed: bool) -> Result<Seq<u8>, Seq<char>> {
    if !compressed {
        Ok(encoded)
    } else {
        match gunzipped(encoded, MAX_DECOMPRESSED_CERTIFICATE_SIZE) {
            Err(()) => Err("failed to decompress the PIV certificate"@),
            Ok(bytes) => if bytes.len() == 0 {
                Err("decompressed PIV certificate was empty"@)
            } else {
                Ok(bytes)
            },
        }
    }
}

/// The DER certificate of a PIV certificate object, or why it cannot be
/// had.
pub open spec fn decoded_certificate(certificate: PivCertificate) -> Result<Seq<u8>, Seq<char>> {
    decoded_der(certificate.encoded_certificate@, certificate.compressed)
}

/// The DER certificate of a PIV certificate object: as stored, or
/// gzip-decompressed (at most 1 MiB) when the card marks it compressed.
pub fn decode_certificate(piv_certificate: &PivCertificate) -> (result: Result<Vec<u8>, String>)
    ensures
        match decoded_certificate(*piv_certificate) {
            Ok(bytes) => result matches Ok(der) && der@ == bytes,
            Err(problem) => result matches Err(message) && message@ == problem,
        },
{
    if !piv_certificate.compressed {
        return Ok(piv_certificate.encoded_certificate.clone());
    }
    let certificate_der = match gunzip_limited(
        piv_certificate.encoded_certificate.as_slice(),
        MAX_DECOMPRESSED_CERTIFICATE_SIZE,
    ) {
        Ok(bytes) => bytes,
        Err(()) => {
            return Err(String::from_str("failed to decompress the PIV certificate"));
        },
    };
    if certificate_der.len() == 0 {
        return Err(String::from_str("decompressed PIV certificate was empty"));
    }
    Ok(certificate_der)
}

/// What a certificate shows of itself, as `x509-parser` writes it.
pub struct CertificateSummary {
    /// Bytes left over after the certificate.
    pub trailing_bytes: usize,
    pub subject: String,
    pub issuer: String,
    pub serial: String,
    pub not_before: String,
    pub not_after: String,
    pub signature_algorithm: String,
    pub public_key_algorithm: String,
    /// Length of the subject public key's bit string, in bytes.
    pub public_key_size: usize,
}

pub struct SummaryView {
    pub trailing_bytes: nat,
    pub subject: Seq<char>,
    pub issuer: Seq<char>,
    pub serial: Seq<char>,
    pub not_before: Seq<char>,
    pub not_after: Seq<char>,
    pub signature_algorithm: Seq<char>,
    pub public_key_algorithm: Seq<char>,
    pub public_key_size: nat,
}

impl View for CertificateSummary {
    type V = SummaryView;

    open spec fn view(&self) -> SummaryView {
        SummaryView {
            trailing_bytes: self.trailing_bytes as nat,
            subject: self.subject@,
            issuer: self.issuer@,
            serial: self.serial@,
            not_before: self.not_before@,
            not_after: self.not_after@,
            signature_algorithm: self.signature_algorithm@,
            public_key_algorithm: self.public_key_algorithm@,
            public_key_size: self.public_key_size as nat,
        }
    }
}

/// What `x509_parser::parse_x509_certificate` shows of DER bytes, written
/// with `x509-parser`'s own `Display` impls; or the parser's error message.
pub uninterp spec fn x509_summary(der: Seq<u8>) -> Result<SummaryView, Seq<char>>;

pub open spec fn summary_result(result: Result<CertificateSummary, String>) -> Result<
    SummaryView,
    Seq<char>,
> {
    match result {
        Ok(summary) => Ok(summary@),
        Err(message) => Err(message@),
    }
}

/// `x509_parser::parse_x509_certificate`, with the parts of the result that
/// are shown: the remaining length, subject and issuer (`X509Name`'s
/// `Display`), `raw_serial_as_string`, the validity dates (`ASN1Time`'s
/// `Display`), the two algorithm identifiers (`Oid`'s `Display`) and the
/// length of the public key's bit string.
#[verifier::external_body]
fn summarize_x509(der: &[u8]) -> (result: Result<CertificateSummary, String>)
    ensures
        summary_result(result) == x509_summary(der@),
{
    let (remaining, c) = x509_parser::parse_x509_certificate(der).map_err(|e| e.to_string())?;
    Ok(CertificateSummary {
        trailing_bytes: remaining.len(),
        subject: c.subject().to_string(),
        issuer: c.issuer().to_string(),
        serial: c.tbs_certificate.raw_serial_as_string(),
        not_before: c.validity().not_before.to_string(),
        not_after: c.validity().not_after.to_string(),
        signature_algorithm: c.signature_algorithm.algorithm.to_string(),
        public_key_algorithm: c.public_key().algorithm.algorithm.to_string(),
        public_key_size: c.public_key().subject_public_key.data.len(),
    })
}

/// The lines that describe a certificate: a warning about trailing bytes
/// when there are any, then a titled block of its fields.
pub open spec fn summary_lines(summary: SummaryView) -> Seq<Seq<char>> {
    (if summary.trailing_bytes > 0 {
        seq![
            "Warning: "@ + decimal(summary.trailing_bytes)
                + " trailing byte(s) remained after X.509 parsing."@,
        ]
    } else {
        Seq::empty()
    }) + seq![
        Seq::empty(),
        "PIV Authentication certificate"@,
        "--------------------------------"@,
        "Subject: "@ + summary.subject,
        "Issuer: "@ + summary.issuer,
        "Serial number: "@ + summary.serial,
        "Valid from: "@ + summary.not_before,
        "Valid until: "@ + summary.not_after,
        "Signature algorithm: "@ + summary.signature_algorithm,
        "Public-key algorithm: "@ + summary.public_key_algorithm,
        "Public-key data size: "@ + decimal(summary.public_key_size) + " bytes"@,
    ]
}

pub open spec fn line_texts(lines: Seq<String>) -> Seq<Seq<char>> {
    lines.map_values(|line: String| line@)
}

/// Writes out what a certificate shows of itself.
pub fn certificate_summary_lines(summary: &CertificateSummary) -> (lines: Vec<String>)
    ensures
        line_texts(lines@) == summary_lines(summary@),
{
    let mut lines: Vec<String> = Vec::new();
    if summary.trailing_bytes > 0 {
        lines.push(
            join3(
                "Warning: ",
                decimal_string(summary.trailing_bytes as u64).as_str(),
                " trailing byte(s) remained after X.509 parsing.",
            ),
        );
    }
    lines.push(String::new());
    lines.push(String::from_str("PIV Authentication certificate"));
    lines.push(String::from_str("--------------------------------"));
    lines.push(join2("Subject: ", summary.subject.as_str()));
    lines.push(join2("Issuer: ", summary.issuer.as_str()));
    lines.push(join2("Serial number: ", summary.serial.as_str()));
    lines.push(join2("Valid from: ", summary.not_before.as_str()));
    lines.push(join2("Valid until: ", summary.not_after.as_str()));
    lines.push(join2("Signature algorithm: ", summary.signature_algorithm.as_str()));
    lines.push(join2("Public-key algorithm: ", summary.public_key_algorithm.as_str()));
    lines.push(
        join3(
            "Public-key data size: ",
            decimal_string(summary.public_key_size as u64).as_str(),
            " bytes",
        ),
    );
    assert(line_texts(lines@) =~= summary_lines(summary@));
    lines
}

/// The lines that describe a DER certificate, for printing.
pub fn display_certificate(certificate_der: &[u8]) -> (result: Result<Vec<String>, String>)
    ensures
        match x509_summary(certificate_der@) {
            Ok(summary) => result matches Ok(lines) && line_texts(lines@) == summary_lines(summary),
            Err(problem) => result matches Err(message) && message@
                == "failed to parse DER X.509 certificate: "@ + problem,
        },
{
    match summarize_x509(certificate_der) {
        Ok(summary) => Ok(certificate_summary_lines(&summary)),
        Err(error) => Err(join2("failed to parse DER X.509 certificate: ", error.as_str())),
    }
}

} // verus!
