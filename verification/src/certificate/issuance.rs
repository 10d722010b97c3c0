//! Issuing a self-signed vault certificate with OpenSSL.
//!
//! Each value OpenSSL is handed travels in a record: the values a key, a
//! name, a serial number, a validity time or an extension was made from
//! stay beside it, and each step that puts one of them into the
//! certificate notes it in the certificate's `IssuedRecord`. What a
//! certificate was made of is thus stated of the certificate itself.
use vstd::prelude::*;

use vstd::utf8::encode_utf8;

use openssl::asn1::{Asn1Integer, Asn1Time};
use openssl::bn::BigNum;
use openssl::pkcs12::Pkcs12;
use openssl::pkey::{PKey, Private};
use openssl::rsa::Rsa;
use openssl::x509::extension::{
    AuthorityKeyIdentifier, BasicConstraints, KeyUsage, SubjectKeyIdentifier,
};
use openssl::x509::{X509, X509Builder, X509Extension, X509Name, X509NameBuilder};

use crate::certificate::key_wrap::x509_public_key;
use crate::certificate::self_signed::{
    extension_failure, fill_failure, generation_failure, has_no_nul, pfx_failure, public_eq,
    serial_failure, GeneratedCertificate, SelfSignedCertificateOptions, MAX_COMMON_NAME_BYTES,
    MAX_VALIDITY_DAYS, SERIAL_NUMBER_BITS,
};
use crate::text::{join2, reports};
use crate::vault::format::option_text;

verus! {

/// The X.509 version number of a version-3 certificate.
pub const X509_VERSION_3: i32 = 2;

/// An extension of a certificate, with the settings it was built with.
#[derive(Debug, Clone, Copy, PartialEq, Eq, Structural)]
pub enum ExtensionRecord {
    BasicConstraints { critical: bool, ca: bool },
    KeyUsage { critical: bool, key_encipherment: bool },
    SubjectKeyIdentifier,
    /// `keyid_always` is the argument of `keyid`, if it was set.
    AuthorityKeyIdentifier { keyid_always: Option<bool> },
}

/// The digest a certificate is signed with.
#[derive(Debug, Clone, Copy, PartialEq, Eq, Structural)]
pub enum SignatureDigest {
    Sha256,
}

/// What a certificate was given, step by step, as it was built: each field
/// is the value handed to OpenSSL for it, if it was set.
#[derive(Debug)]
pub struct IssuedRecord {
    pub version: Option<i32>,
    pub serial_number_bits: Option<i32>,
    pub subject_common_name: Option<String>,
    pub issuer_common_name: Option<String>,
    pub public_key_bits: Option<u32>,
    pub not_before_days: Option<u32>,
    pub not_after_days: Option<u32>,
    pub extensions: Vec<ExtensionRecord>,
    /// The digest, and the size of the key that signed.
    pub signature: Option<(SignatureDigest, u32)>,
    pub friendly_name: Option<String>,
}

/// The content of an `IssuedRecord`.
pub struct IssuedView {
    pub version: Option<i32>,
    pub serial_number_bits: Option<i32>,
    pub subject_common_name: Option<Seq<char>>,
    pub issuer_common_name: Option<Seq<char>>,
    pub public_key_bits: Option<u32>,
    pub not_before_days: Option<u32>,
    pub not_after_days: Option<u32>,
    pub extensions: Seq<ExtensionRecord>,
    pub signature: Option<(SignatureDigest, u32)>,
    pub friendly_name: Option<Seq<char>>,
}

impl View for IssuedRecord {
    type V = IssuedView;

    open spec fn view(&self) -> IssuedView {
        IssuedView {
            version: self.version,
            serial_number_bits: self.serial_number_bits,
            subject_common_name: option_text(self.subject_common_name),
            issuer_common_name: option_text(self.issuer_common_name),
            public_key_bits: self.public_key_bits,
            not_before_days: self.not_before_days,
            not_after_days: self.not_after_days,
            extensions: self.extensions@,
            signature: self.signature,
            friendly_name: option_text(self.friendly_name),
        }
    }
}

pub open spec fn empty_issued() -> IssuedView {
    IssuedView {
        version: None,
        serial_number_bits: None,
        subject_common_name: None,
        issuer_common_name: None,
        public_key_bits: None,
        not_before_days: None,
        not_after_days: None,
        extensions: Seq::empty(),
        signature: None,
        friendly_name: None,
    }
}

impl IssuedRecord {
    /// The record of a certificate that has been given nothing yet.
    pub fn empty() -> (record: Self)
        ensures
            record@ == empty_issued(),
    {
        IssuedRecord {
            version: None,
            serial_number_bits: None,
            subject_common_name: None,
            issuer_common_name: None,
            public_key_bits: None,
            not_before_days: None,
            not_after_days: None,
            extensions: Vec::new(),
            signature: None,
            friendly_name: None,
        }
    }
}

/// The extensions of a vault certificate: critical basic constraints that
/// deny it CA use, critical key usage for key encipherment only, and
/// subject and authority key identifiers, the latter always by key id.
pub open spec fn vault_certificate_extensions() -> Seq<ExtensionRecord> {
    seq![
        ExtensionRecord::BasicConstraints { critical: true, ca: false },
        ExtensionRecord::KeyUsage { critical: true, key_encipherment: true },
        ExtensionRecord::SubjectKeyIdentifier,
        ExtensionRecord::AuthorityKeyIdentifier { keyid_always: Some(true) },
    ]
}

/// The values a vault certificate is generated from, each handed to the
/// OpenSSL call that takes it: the RSA key size, the common name of the
/// subject (which is also the issuer), the X.509 version, the serial
/// number's random bits, the days from now of the start and of the end of
/// the validity, its extensions, the signature digest, and the friendly
/// name of the PFX.
pub struct CertificatePlan {
    pub rsa_bits: u32,
    pub common_name: String,
    pub x509_version: i32,
    pub serial_number_bits: i32,
    pub valid_from_days: u32,
    pub valid_until_days: u32,
    pub extensions: Vec<ExtensionRecord>,
    pub signature_digest: SignatureDigest,
    pub friendly_name: String,
}

/// The plan of a certificate for accepted options: a version-3 certificate
/// with a random serial of `SERIAL_NUMBER_BITS` bits, valid from now for
/// the requested days, with the requested key size and names, the vault
/// certificate extensions, signed with SHA-256.
pub fn certificate_plan(options: &SelfSignedCertificateOptions) -> (plan: CertificatePlan)
    ensures
        plan.rsa_bits == options.rsa_bits,
        plan.common_name@ == options.common_name@,
        plan.x509_version == X509_VERSION_3,
        plan.serial_number_bits == SERIAL_NUMBER_BITS,
        plan.valid_from_days == 0,
        plan.valid_until_days == options.validity_days,
        plan.extensions@ == vault_certificate_extensions(),
        plan.signature_digest == SignatureDigest::Sha256,
        plan.friendly_name@ == options.friendly_name@,
{
    let mut extensions: Vec<ExtensionRecord> = Vec::new();
    extensions.push(ExtensionRecord::BasicConstraints { critical: true, ca: false });
    extensions.push(ExtensionRecord::KeyUsage { critical: true, key_encipherment: true });
    extensions.push(ExtensionRecord::SubjectKeyIdentifier);
    extensions.push(ExtensionRecord::AuthorityKeyIdentifier { keyid_always: Some(true) });
    assert(extensions@ =~= vault_certificate_extensions());
    CertificatePlan {
        rsa_bits: options.rsa_bits,
        common_name: options.common_name.clone(),
        x509_version: X509_VERSION_3,
        serial_number_bits: SERIAL_NUMBER_BITS,
        valid_from_days: 0,
        valid_until_days: options.validity_days,
        extensions,
        signature_digest: SignatureDigest::Sha256,
        friendly_name: options.friendly_name.clone(),
    }
}

/// A certificate was given, for each step, the value the plan holds for it,
/// and was packed under the plan's friendly name.
pub open spec fn issued_as_planned(issued: IssuedView, plan: CertificatePlan) -> bool {
    &&& issued.version == Some(plan.x509_version)
    &&& issued.serial_number_bits == Some(plan.serial_number_bits)
    &&& issued.subject_common_name == Some(plan.common_name@)
    &&& issued.issuer_common_name == Some(plan.common_name@)
    &&& issued.public_key_bits == Some(plan.rsa_bits)
    &&& issued.not_before_days == Some(plan.valid_from_days)
    &&& issued.not_after_days == Some(plan.valid_until_days)
    &&& issued.extensions == plan.extensions@
    &&& issued.signature == Some((plan.signature_digest, plan.rsa_bits))
    &&& issued.friendly_name == Some(plan.friendly_name@)
}

/// A certificate was made as options ask: `certificate_plan` of them.
pub open spec fn issued_for_options(issued: IssuedView, options: SelfSignedCertificateOptions) -> bool {
    &&& issued.version == Some(X509_VERSION_3)
    &&& issued.serial_number_bits == Some(SERIAL_NUMBER_BITS)
    &&& issued.subject_common_name == Some(options.common_name@)
    &&& issued.issuer_common_name == Some(options.common_name@)
    &&& issued.public_key_bits == Some(options.rsa_bits)
    &&& issued.not_before_days == Some(0u32)
    &&& issued.not_after_days == Some(options.validity_days)
    &&& issued.extensions == vault_certificate_extensions()
    &&& issued.signature == Some((SignatureDigest::Sha256, options.rsa_bits))
    &&& issued.friendly_name == Some(options.friendly_name@)
}

// ---------------------------------------------------------------------------
// Outside types
#[verifier::external_type_specification]
#[verifier::external_body]
#[verifier::reject_recursive_types(T)]
pub struct ExRsa<T>(openssl::rsa::Rsa<T>);

#[verifier::external_type_specification]
#[verifier::external_body]
pub struct ExX509NameBuilder(openssl::x509::X509NameBuilder);

#[verifier::external_type_specification]
#[verifier::external_body]
pub struct ExX509Name(openssl::x509::X509Name);

#[verifier::external_type_specification]
#[verifier::external_body]
pub struct ExX509Builder(openssl::x509::X509Builder);

#[verifier::external_type_specification]
#[verifier::external_body]
pub struct ExBigNum(openssl::bn::BigNum);

#[verifier::external_type_specification]
#[verifier::external_body]
pub struct ExAsn1Integer(openssl::asn1::Asn1Integer);

#[verifier::external_type_specification]
#[verifier::external_body]
pub struct ExAsn1Time(openssl::asn1::Asn1Time);

#[verifier::external_type_specification]
#[verifier::external_body]
pub struct ExX509Extension(openssl::x509::X509Extension);

#[verifier::external_type_specification]
#[verifier::external_body]
pub struct ExBasicConstraints(openssl::x509::extension::BasicConstraints);

#[verifier::external_type_specification]
#[verifier::external_body]
pub struct ExKeyUsage(openssl::x509::extension::KeyUsage);

#[verifier::external_type_specification]
#[verifier::external_body]
pub struct ExAuthorityKeyIdentifier(openssl::x509::extension::AuthorityKeyIdentifier);

// ---------------------------------------------------------------------------
// Values with what they were made from
/// An RSA key pair and the size it was generated with.
pub struct GeneratedRsa {
    rsa: Rsa<Private>,
    bits: u32,
}

/// A private key and the size of the RSA key it holds.
pub struct SigningKey {
    key: PKey<Private>,
    bits: u32,
}

/// A distinguished name being built, with the common name given to it.
pub struct NameDraft {
    builder: X509NameBuilder,
    common_name: Option<String>,
}

/// A distinguished name and the common name it was built with.
pub struct CertificateName {
    name: X509Name,
    common_name: Option<String>,
}

/// A number being made random, with the bits asked for.
pub struct NumberDraft {
    number: BigNum,
    random_bits: Option<i32>,
}

/// A serial number and the random bits it was made of.
pub struct SerialNumber {
    value: Asn1Integer,
    random_bits: Option<i32>,
}

impl SerialNumber {
    pub closed spec fn spec_random_bits(&self) -> Option<i32> {
        self.random_bits
    }
}

/// A time and how many days from now it was taken.
pub struct ValidityTime {
    time: Asn1Time,
    days: u32,
}

/// An extension and the settings it was built with.
pub struct Extension {
    extension: X509Extension,
    record: ExtensionRecord,
}

pub struct BasicConstraintsDraft {
    builder: BasicConstraints,
    critical: bool,
    ca: bool,
}

pub struct KeyUsageDraft {
    builder: KeyUsage,
    critical: bool,
    key_encipherment: bool,
}

pub struct AuthorityKeyDraft {
    builder: AuthorityKeyIdentifier,
    keyid_always: Option<bool>,
}

/// A certificate being built and what it has been given.
pub struct CertificateDraft {
    builder: X509Builder,
    record: IssuedRecord,
}

/// A packed PFX archive and the friendly name it was given.
pub struct PfxArchive {
    pfx: Pkcs12,
    friendly_name: String,
}

// ---------------------------------------------------------------------------
// Outside functions
/// `Rsa::generate` (openssl): a new RSA key of `bits` bits.
#[verifier::external_body]
fn rsa_generate(bits: u32) -> (result: Result<GeneratedRsa, String>)
    ensures
        result matches Ok(generated) ==> generated.bits == bits,
{
    match Rsa::generate(bits) {
        Ok(rsa) => Ok(GeneratedRsa { rsa, bits }),
        Err(error) => Err(error.to_string()),
    }
}

/// `PKey::from_rsa` (openssl).
#[verifier::external_body]
fn pkey_from_rsa(generated: GeneratedRsa) -> (result: Result<SigningKey, String>)
    ensures
        result matches Ok(key) ==> key.bits == generated.bits,
{
    let bits = generated.bits;
    match PKey::from_rsa(generated.rsa) {
        Ok(key) => Ok(SigningKey { key, bits }),
        Err(error) => Err(error.to_string()),
    }
}

/// `X509NameBuilder::new` (openssl).
#[verifier::external_body]
fn x509_name_builder() -> (result: Result<NameDraft, String>)
    ensures
        result matches Ok(draft) ==> draft.common_name is None,
{
    match X509NameBuilder::new() {
        Ok(builder) => Ok(NameDraft { builder, common_name: None }),
        Err(error) => Err(error.to_string()),
    }
}

/// `X509NameBuilder::append_entry_by_nid` (openssl) with `Nid::COMMONNAME`,
/// which asserts that the value's UTF-8 length fits a C `int`.
#[verifier::external_body]
fn append_common_name(draft: &mut NameDraft, value: &str) -> (result: Result<(), String>)
    requires
        encode_utf8(value@).len() <= MAX_COMMON_NAME_BYTES,
    ensures
        option_text(final(draft).common_name) == if result is Ok {
            Some(value@)
        } else {
            option_text(old(draft).common_name)
        },
{
    match draft.builder.append_entry_by_nid(openssl::nid::Nid::COMMONNAME, value) {
        Ok(()) => {
            draft.common_name = Some(value.to_string());
            Ok(())
        },
        Err(error) => Err(error.to_string()),
    }
}

/// `X509NameBuilder::build` (openssl).
#[verifier::external_body]
fn build_name(draft: NameDraft) -> (name: CertificateName)
    ensures
        option_text(name.common_name) == option_text(draft.common_name),
{
    CertificateName { name: draft.builder.build(), common_name: draft.common_name }
}

/// `X509::builder` (openssl), beside the record it starts with.
#[verifier::external_body]
fn x509_builder(record: IssuedRecord) -> (result: Result<CertificateDraft, String>)
    ensures
        result matches Ok(draft) ==> draft.record@ == record@,
{
    match X509::builder() {
        Ok(builder) => Ok(CertificateDraft { builder, record }),
        Err(error) => Err(error.to_string()),
    }
}

/// `X509Builder::set_version` (openssl).
#[verifier::external_body]
fn set_version(draft: &mut CertificateDraft, version: i32) -> (result: Result<(), String>)
    ensures
        final(draft).record@ == if result is Ok {
            IssuedView { version: Some(version), ..old(draft).record@ }
        } else {
            old(draft).record@
        },
{
    match draft.builder.set_version(version) {
        Ok(()) => {
            draft.record.version = Some(version);
            Ok(())
        },
        Err(error) => Err(error.to_string()),
    }
}

/// `BigNum::new` (openssl).
#[verifier::external_body]
fn bignum_new() -> (result: Result<NumberDraft, String>)
    ensures
        result matches Ok(draft) ==> draft.random_bits is None,
{
    match BigNum::new() {
        Ok(number) => Ok(NumberDraft { number, random_bits: None }),
        Err(error) => Err(error.to_string()),
    }
}

/// `BigNumRef::rand` (openssl) with `MsbOption::MAYBE_ZERO`: `bits` random
/// bits, the top one free to be zero.
#[verifier::external_body]
fn bignum_rand(draft: &mut NumberDraft, bits: i32, odd: bool) -> (result: Result<(), String>)
    ensures
        final(draft).random_bits == if result is Ok {
            Some(bits)
        } else {
            old(draft).random_bits
        },
{
    match draft.number.rand(bits, openssl::bn::MsbOption::MAYBE_ZERO, odd) {
        Ok(()) => {
            draft.random_bits = Some(bits);
            Ok(())
        },
        Err(error) => Err(error.to_string()),
    }
}

/// `BigNumRef::to_asn1_integer` (openssl).
#[verifier::external_body]
fn bignum_to_asn1(draft: &NumberDraft) -> (result: Result<SerialNumber, String>)
    ensures
        result matches Ok(serial) ==> serial.random_bits == draft.random_bits,
{
    match draft.number.to_asn1_integer() {
        Ok(value) => Ok(SerialNumber { value, random_bits: draft.random_bits }),
        Err(error) => Err(error.to_string()),
    }
}

/// `X509Builder::set_serial_number` (openssl).
#[verifier::external_body]
fn set_serial_number(draft: &mut CertificateDraft, serial: &SerialNumber) -> (result: Result<
    (),
    String,
>)
    ensures
        final(draft).record@ == if result is Ok {
            IssuedView { serial_number_bits: serial.random_bits, ..old(draft).record@ }
        } else {
            old(draft).record@
        },
{
    match draft.builder.set_serial_number(&serial.value) {
        Ok(()) => {
            draft.record.serial_number_bits = serial.random_bits;
            Ok(())
        },
        Err(error) => Err(error.to_string()),
    }
}

/// `X509Builder::set_subject_name` (openssl).
#[verifier::external_body]
fn set_subject_name(draft: &mut CertificateDraft, name: &CertificateName) -> (result: Result<
    (),
    String,
>)
    ensures
        final(draft).record@ == if result is Ok {
            IssuedView {
                subject_common_name: option_text(name.common_name),
                ..old(draft).record@
            }
        } else {
            old(draft).record@
        },
{
    match draft.builder.set_subject_name(&name.name) {
        Ok(()) => {
            draft.record.subject_common_name = name.common_name.clone();
            Ok(())
        },
        Err(error) => Err(error.to_string()),
    }
}

/// `X509Builder::set_issuer_name` (openssl).
#[verifier::external_body]
fn set_issuer_name(draft: &mut CertificateDraft, name: &CertificateName) -> (result: Result<
    (),
    String,
>)
    ensures
        final(draft).record@ == if result is Ok {
            IssuedView {
                issuer_common_name: option_text(name.common_name),
                ..old(draft).record@
            }
        } else {
            old(draft).record@
        },
{
    match draft.builder.set_issuer_name(&name.name) {
        Ok(()) => {
            draft.record.issuer_common_name = name.common_name.clone();
            Ok(())
        },
        Err(error) => Err(error.to_string()),
    }
}

/// `X509Builder::set_pubkey` (openssl).
#[verifier::external_body]
fn set_pubkey(draft: &mut CertificateDraft, key: &SigningKey) -> (result: Result<(), String>)
    ensures
        final(draft).record@ == if result is Ok {
            IssuedView { public_key_bits: Some(key.bits), ..old(draft).record@ }
        } else {
            old(draft).record@
        },
{
    match draft.builder.set_pubkey(&key.key) {
        Ok(()) => {
            draft.record.public_key_bits = Some(key.bits);
            Ok(())
        },
        Err(error) => Err(error.to_string()),
    }
}

/// `Asn1Time::days_from_now` (openssl). It multiplies the days by the
/// seconds of a day in a C `long`, which overflows past `MAX_VALIDITY_DAYS`
/// where `long` has 32 bits.
#[verifier::external_body]
fn days_from_now(days: u32) -> (result: Result<ValidityTime, String>)
    requires
        days <= MAX_VALIDITY_DAYS,
    ensures
        result matches Ok(time) ==> time.days == days,
{
    match Asn1Time::days_from_now(days) {
        Ok(time) => Ok(ValidityTime { time, days }),
        Err(error) => Err(error.to_string()),
    }
}

/// `X509Builder::set_not_before` (openssl).
#[verifier::external_body]
fn set_not_before(draft: &mut CertificateDraft, time: &ValidityTime) -> (result: Result<(), String>)
    ensures
        final(draft).record@ == if result is Ok {
            IssuedView { not_before_days: Some(time.days), ..old(draft).record@ }
        } else {
            old(draft).record@
        },
{
    match draft.builder.set_not_before(&time.time) {
        Ok(()) => {
            draft.record.not_before_days = Some(time.days);
            Ok(())
        },
        Err(error) => Err(error.to_string()),
    }
}

/// `X509Builder::set_not_after` (openssl).
#[verifier::external_body]
fn set_not_after(draft: &mut CertificateDraft, time: &ValidityTime) -> (result: Result<(), String>)
    ensures
        final(draft).record@ == if result is Ok {
            IssuedView { not_after_days: Some(time.days), ..old(draft).record@ }
        } else {
            old(draft).record@
        },
{
    match draft.builder.set_not_after(&time.time) {
        Ok(()) => {
            draft.record.not_after_days = Some(time.days);
            Ok(())
        },
        Err(error) => Err(error.to_string()),
    }
}

/// `BasicConstraints::new` (openssl): not critical, not a CA.
#[verifier::external_body]
fn basic_constraints_new() -> (draft: BasicConstraintsDraft)
    ensures
        !draft.critical && !draft.ca,
{
    BasicConstraintsDraft { builder: BasicConstraints::new(), critical: false, ca: false }
}

/// `BasicConstraints::critical` (openssl).
#[verifier::external_body]
fn basic_constraints_critical(draft: &mut BasicConstraintsDraft)
    ensures
        final(draft).critical && final(draft).ca == old(draft).ca,
{
    draft.builder.critical();
    draft.critical = true;
}

/// `BasicConstraints::ca` (openssl).
#[verifier::external_body]
fn basic_constraints_ca(draft: &mut BasicConstraintsDraft)
    ensures
        final(draft).ca && final(draft).critical == old(draft).critical,
{
    draft.builder.ca();
    draft.ca = true;
}

/// `BasicConstraints::build` (openssl).
#[verifier::external_body]
fn basic_constraints_build(draft: &BasicConstraintsDraft) -> (result: Result<Extension, String>)
    ensures
        result matches Ok(extension) ==> extension.record == (ExtensionRecord::BasicConstraints {
            critical: draft.critical,
            ca: draft.ca,
        }),
{
    match draft.builder.build() {
        Ok(extension) => Ok(
            Extension {
                extension,
                record: ExtensionRecord::BasicConstraints { critical: draft.critical, ca: draft.ca },
            },
        ),
        Err(error) => Err(error.to_string()),
    }
}

/// `KeyUsage::new` (openssl): not critical, no usage.
#[verifier::external_body]
fn key_usage_new() -> (draft: KeyUsageDraft)
    ensures
        !draft.critical && !draft.key_encipherment,
{
    KeyUsageDraft { builder: KeyUsage::new(), critical: false, key_encipherment: false }
}

/// `KeyUsage::critical` (openssl).
#[verifier::external_body]
fn key_usage_critical(draft: &mut KeyUsageDraft)
    ensures
        final(draft).critical && final(draft).key_encipherment == old(draft).key_encipherment,
{
    draft.builder.critical();
    draft.critical = true;
}

/// `KeyUsage::key_encipherment` (openssl).
#[verifier::external_body]
fn key_usage_key_encipherment(draft: &mut KeyUsageDraft)
    ensures
        final(draft).key_encipherment && final(draft).critical == old(draft).critical,
{
    draft.builder.key_encipherment();
    draft.key_encipherment = true;
}

/// `KeyUsage::build` (openssl).
#[verifier::external_body]
fn key_usage_build(draft: &KeyUsageDraft) -> (result: Result<Extension, String>)
    ensures
        result matches Ok(extension) ==> extension.record == (ExtensionRecord::KeyUsage {
            critical: draft.critical,
            key_encipherment: draft.key_encipherment,
        }),
{
    match draft.builder.build() {
        Ok(extension) => Ok(
            Extension {
                extension,
                record: ExtensionRecord::KeyUsage {
                    critical: draft.critical,
                    key_encipherment: draft.key_encipherment,
                },
            },
        ),
        Err(error) => Err(error.to_string()),
    }
}

/// `SubjectKeyIdentifier::build` (openssl) of `SubjectKeyIdentifier::new()`
/// in the certificate's X.509v3 context, without issuer or configuration.
#[verifier::external_body]
fn subject_key_identifier(draft: &CertificateDraft) -> (result: Result<Extension, String>)
    ensures
        result matches Ok(extension) ==> extension.record == ExtensionRecord::SubjectKeyIdentifier,
{
    let context = draft.builder.x509v3_context(None, None);
    match SubjectKeyIdentifier::new().build(&context) {
        Ok(extension) => Ok(Extension { extension, record: ExtensionRecord::SubjectKeyIdentifier }),
        Err(error) => Err(error.to_string()),
    }
}

/// `AuthorityKeyIdentifier::new` (openssl): no key id setting.
#[verifier::external_body]
fn authority_key_new() -> (draft: AuthorityKeyDraft)
    ensures
        draft.keyid_always is None,
{
    AuthorityKeyDraft { builder: AuthorityKeyIdentifier::new(), keyid_always: None }
}

/// `AuthorityKeyIdentifier::keyid` (openssl).
#[verifier::external_body]
fn authority_key_keyid(draft: &mut AuthorityKeyDraft, always: bool)
    ensures
        final(draft).keyid_always == Some(always),
{
    draft.builder.keyid(always);
    draft.keyid_always = Some(always);
}

/// `AuthorityKeyIdentifier::build` (openssl) in the certificate's X.509v3
/// context, without issuer or configuration.
#[verifier::external_body]
fn authority_key_build(draft: &AuthorityKeyDraft, certificate: &CertificateDraft) -> (result:
    Result<Extension, String>)
    ensures
        result matches Ok(extension) ==> extension.record == (
        ExtensionRecord::AuthorityKeyIdentifier { keyid_always: draft.keyid_always }),
{
    let context = certificate.builder.x509v3_context(None, None);
    match draft.builder.build(&context) {
        Ok(extension) => Ok(
            Extension {
                extension,
                record: ExtensionRecord::AuthorityKeyIdentifier {
                    keyid_always: draft.keyid_always,
                },
            },
        ),
        Err(error) => Err(error.to_string()),
    }
}

/// `X509Builder::append_extension` (openssl).
#[verifier::external_body]
fn append_extension(draft: &mut CertificateDraft, extension: Extension) -> (result: Result<
    (),
    String,
>)
    ensures
        final(draft).record@ == if result is Ok {
            IssuedView {
                extensions: old(draft).record@.extensions.push(extension.record),
                ..old(draft).record@
            }
        } else {
            old(draft).record@
        },
{
    match draft.builder.append_extension(extension.extension) {
        Ok(()) => {
            draft.record.extensions.push(extension.record);
            Ok(())
        },
        Err(error) => Err(error.to_string()),
    }
}

/// `X509Builder::sign` (openssl) with the digest asked for.
#[verifier::external_body]
fn sign(draft: &mut CertificateDraft, key: &SigningKey, digest: SignatureDigest) -> (result: Result<
    (),
    String,
>)
    ensures
        final(draft).record@ == if result is Ok {
            IssuedView { signature: Some((digest, key.bits)), ..old(draft).record@ }
        } else {
            old(draft).record@
        },
{
    let message_digest = match digest {
        SignatureDigest::Sha256 => openssl::hash::MessageDigest::sha256(),
    };
    match draft.builder.sign(&key.key, message_digest) {
        Ok(()) => {
            draft.record.signature = Some((digest, key.bits));
            Ok(())
        },
        Err(error) => Err(error.to_string()),
    }
}

/// `X509Builder::build` (openssl), with the record of what it was given.
#[verifier::external_body]
fn build_certificate(draft: CertificateDraft) -> (result: (X509, IssuedRecord))
    ensures
        result.1@ == draft.record@,
{
    (draft.builder.build(), draft.record)
}

/// `Pkcs12Builder::build2` (openssl) of `Pkcs12::builder()` given the
/// friendly name, the private key and the certificate. Both the name and
/// the password become C strings, which panics on a NUL character.
#[verifier::external_body]
fn pkcs12_build(
    friendly_name: &str,
    private_key: &PKey<Private>,
    certificate: &X509,
    password: &str,
) -> (result: Result<PfxArchive, String>)
    requires
        has_no_nul(friendly_name@),
        has_no_nul(password@),
    ensures
        result matches Ok(archive) ==> archive.friendly_name@ == friendly_name@,
{
    let mut builder = Pkcs12::builder();
    builder.name(friendly_name).pkey(private_key).cert(certificate);
    match builder.build2(password) {
        Ok(pfx) => Ok(PfxArchive { pfx, friendly_name: friendly_name.to_string() }),
        Err(error) => Err(error.to_string()),
    }
}

/// `Pkcs12Ref::to_der` (openssl), which refuses an encoding whose length
/// OpenSSL does not report as positive.
#[verifier::external_body]
fn pkcs12_to_der(archive: &PfxArchive) -> (result: Result<Vec<u8>, String>)
    ensures
        result matches Ok(der) ==> der@.len() > 0,
{
    archive.pfx.to_der().map_err(|error| error.to_string())
}

// ---------------------------------------------------------------------------
// Building
/// A random serial number of `bits` bits.
pub fn generate_serial_number(bits: i32) -> (result: Result<SerialNumber, String>)
    ensures
        result matches Ok(serial) ==> serial.spec_random_bits() == Some(bits),
        result matches Err(message) ==> serial_failure(message@),
{
    let mut serial = match bignum_new() {
        Ok(number) => number,
        Err(error) => {
            return Err(join2("failed to allocate certificate serial number: ", error.as_str()));
        },
    };
    match bignum_rand(&mut serial, bits, false) {
        Ok(()) => {},
        Err(error) => {
            return Err(join2("failed to generate certificate serial number: ", error.as_str()));
        },
    }
    match bignum_to_asn1(&serial) {
        Ok(integer) => Ok(integer),
        Err(error) => Err(join2("failed to encode certificate serial number: ", error.as_str())),
    }
}

/// The start of the errors of building an extension of this kind.
pub open spec fn build_prefix(kind: ExtensionRecord) -> Seq<char> {
    match kind {
        ExtensionRecord::BasicConstraints { .. } => "failed to build basic constraints: "@,
        ExtensionRecord::KeyUsage { .. } => "failed to build key usage: "@,
        ExtensionRecord::SubjectKeyIdentifier => "failed to build subject key identifier: "@,
        ExtensionRecord::AuthorityKeyIdentifier { .. } =>
            "failed to build authority key identifier: "@,
    }
}

/// The start of the errors of adding an extension of this kind.
pub open spec fn add_prefix(kind: ExtensionRecord) -> Seq<char> {
    match kind {
        ExtensionRecord::BasicConstraints { .. } => "failed to add basic constraints: "@,
        ExtensionRecord::KeyUsage { .. } => "failed to add key usage: "@,
        ExtensionRecord::SubjectKeyIdentifier => "failed to add subject key identifier: "@,
        ExtensionRecord::AuthorityKeyIdentifier { .. } =>
            "failed to add authority key identifier: "@,
    }
}

fn build_prefix_of(kind: ExtensionRecord) -> (prefix: &'static str)
    ensures
        prefix@ == build_prefix(kind),
{
    match kind {
        ExtensionRecord::BasicConstraints { .. } => "failed to build basic constraints: ",
        ExtensionRecord::KeyUsage { .. } => "failed to build key usage: ",
        ExtensionRecord::SubjectKeyIdentifier => "failed to build subject key identifier: ",
        ExtensionRecord::AuthorityKeyIdentifier { .. } =>
            "failed to build authority key identifier: ",
    }
}

fn add_prefix_of(kind: ExtensionRecord) -> (prefix: &'static str)
    ensures
        prefix@ == add_prefix(kind),
{
    match kind {
        ExtensionRecord::BasicConstraints { .. } => "failed to add basic constraints: ",
        ExtensionRecord::KeyUsage { .. } => "failed to add key usage: ",
        ExtensionRecord::SubjectKeyIdentifier => "failed to add subject key identifier: ",
        ExtensionRecord::AuthorityKeyIdentifier { .. } => "failed to add authority key identifier: ",
    }
}

/// Builds an extension with exactly the settings `wanted` records.
fn build_extension(certificate: &CertificateDraft, wanted: ExtensionRecord) -> (result: Result<
    Extension,
    String,
>)
    ensures
        result matches Ok(extension) ==> extension.record == wanted,
{
    match wanted {
        ExtensionRecord::BasicConstraints { critical, ca } => {
            let mut draft = basic_constraints_new();
            if critical {
                basic_constraints_critical(&mut draft);
            }
            if ca {
                basic_constraints_ca(&mut draft);
            }
            basic_constraints_build(&draft)
        },
        ExtensionRecord::KeyUsage { critical, key_encipherment } => {
            let mut draft = key_usage_new();
            if critical {
                key_usage_critical(&mut draft);
            }
            if key_encipherment {
                key_usage_key_encipherment(&mut draft);
            }
            key_usage_build(&draft)
        },
        ExtensionRecord::SubjectKeyIdentifier => subject_key_identifier(certificate),
        ExtensionRecord::AuthorityKeyIdentifier { keyid_always } => {
            let mut draft = authority_key_new();
            match keyid_always {
                Some(always) => authority_key_keyid(&mut draft, always),
                None => {},
            }
            authority_key_build(&draft, certificate)
        },
    }
}

/// Builds and adds the extensions, in order.
fn add_extensions(draft: &mut CertificateDraft, extensions: &Vec<ExtensionRecord>) -> (result:
    Result<(), String>)
    ensures
        result is Ok ==> final(draft).record@ == (IssuedView {
            extensions: old(draft).record@.extensions + extensions@,
            ..old(draft).record@
        }),
        result matches Err(message) ==> extension_failure(message@),
{
    let mut index: usize = 0;
    while index < extensions.len()
        invariant
            index <= extensions@.len(),
            draft.record@ == (IssuedView {
                extensions: old(draft).record@.extensions + extensions@.take(index as int),
                ..old(draft).record@
            }),
        decreases extensions@.len() - index,
    {
        let kind = extensions[index];
        let extension = match build_extension(draft, kind) {
            Ok(extension) => extension,
            Err(error) => {
                let message = join2(build_prefix_of(kind), error.as_str());
                assert(reports(message@, build_prefix(kind)));
                return Err(message);
            },
        };
        match append_extension(draft, extension) {
            Ok(()) => {},
            Err(error) => {
                let message = join2(add_prefix_of(kind), error.as_str());
                assert(reports(message@, add_prefix(kind)));
                return Err(message);
            },
        }
        assert(extensions@.take(index as int + 1) =~= extensions@.take(index as int).push(kind));
        assert(old(draft).record@.extensions + extensions@.take(index as int + 1) =~= (old(
            draft,
        ).record@.extensions + extensions@.take(index as int)).push(kind));
        index = index + 1;
    }
    assert(extensions@.take(index as int) =~= extensions@);
    Ok(())
}

/// Sets the identity, the validity and the extensions of a certificate
/// whose subject and issuer are `name`, as `plan` says.
fn fill_certificate(
    draft: &mut CertificateDraft,
    name: &CertificateName,
    key: &SigningKey,
    plan: &CertificatePlan,
) -> (result: Result<(), String>)
    requires
        plan.valid_from_days <= MAX_VALIDITY_DAYS,
        plan.valid_until_days <= MAX_VALIDITY_DAYS,
    ensures
        result is Ok ==> final(draft).record@ == (IssuedView {
            version: Some(plan.x509_version),
            serial_number_bits: Some(plan.serial_number_bits),
            subject_common_name: option_text(name.common_name),
            issuer_common_name: option_text(name.common_name),
            public_key_bits: Some(key.bits),
            not_before_days: Some(plan.valid_from_days),
            not_after_days: Some(plan.valid_until_days),
            extensions: old(draft).record@.extensions + plan.extensions@,
            ..old(draft).record@
        }),
        result matches Err(message) ==> fill_failure(message@),
{
    if let Err(error) = set_version(draft, plan.x509_version) {
        return Err(join2("failed to set certificate version: ", error.as_str()));
    }
    let serial_number = match generate_serial_number(plan.serial_number_bits) {
        Ok(serial) => serial,
        Err(message) => {
            return Err(message);
        },
    };
    if let Err(error) = set_serial_number(draft, &serial_number) {
        return Err(join2("failed to set certificate serial number: ", error.as_str()));
    }
    if let Err(error) = set_subject_name(draft, name) {
        return Err(join2("failed to set certificate subject: ", error.as_str()));
    }
    if let Err(error) = set_issuer_name(draft, name) {
        return Err(join2("failed to set certificate issuer: ", error.as_str()));
    }
    if let Err(error) = set_pubkey(draft, key) {
        return Err(join2("failed to set certificate public key: ", error.as_str()));
    }
    let not_before = match days_from_now(plan.valid_from_days) {
        Ok(time) => time,
        Err(error) => {
            return Err(join2("failed to set certificate start date: ", error.as_str()));
        },
    };
    let not_after = match days_from_now(plan.valid_until_days) {
        Ok(time) => time,
        Err(error) => {
            return Err(join2("failed to set certificate expiration date: ", error.as_str()));
        },
    };
    if let Err(error) = set_not_before(draft, &not_before) {
        return Err(join2("failed to apply certificate start date: ", error.as_str()));
    }
    if let Err(error) = set_not_after(draft, &not_after) {
        return Err(join2("failed to apply certificate expiration date: ", error.as_str()));
    }
    add_extensions(draft, &plan.extensions)
}

/// Packs a certificate and its private key in a PFX under `password`; the
/// archive's DER and the friendly name it was given.
pub fn create_pfx_der(
    certificate: &X509,
    private_key: &PKey<Private>,
    friendly_name: &str,
    password: &str,
) -> (result: Result<(Vec<u8>, String), String>)
    requires
        has_no_nul(friendly_name@),
        has_no_nul(password@),
    ensures
        result matches Ok(packed) ==> packed.0@.len() > 0 && packed.1@ == friendly_name@,
        result matches Err(message) ==> pfx_failure(message@),
{
    let archive = match pkcs12_build(friendly_name, private_key, certificate, password) {
        Ok(archive) => archive,
        Err(error) => {
            return Err(join2("failed to create PFX archive: ", error.as_str()));
        },
    };
    match pkcs12_to_der(&archive) {
        Ok(der) => Ok((der, archive.friendly_name)),
        Err(error) => Err(join2("failed to encode PFX archive: ", error.as_str())),
    }
}

/// A generated certificate and its key, packed in a PFX under `password`,
/// once OpenSSL has compared them (`same`): a pair that differs is refused;
/// a pair that matches is returned as it is, with its non-empty PFX and
/// its record completed by the friendly name, unless packing fails.
pub fn pack_checked_pair(
    certificate: X509,
    private_key: PKey<Private>,
    issued: IssuedRecord,
    same: bool,
    friendly_name: &str,
    password: &str,
) -> (result: Result<GeneratedCertificate, String>)
    requires
        has_no_nul(friendly_name@),
        has_no_nul(password@),
    ensures
        !same ==> (result matches Err(message) && message@
            == "generated certificate does not match generated private key"@),
        same ==> match result {
            Ok(generated) => {
                &&& generated.certificate == certificate
                &&& generated.private_key == private_key
                &&& generated.pfx_der@.len() > 0
                &&& generated.issued@ == (IssuedView {
                    friendly_name: Some(friendly_name@),
                    ..issued@
                })
            },
            Err(message) => pfx_failure(message@),
        },
{
    if !same {
        return Err(String::from_str("generated certificate does not match generated private key"));
    }
    let (pfx_der, packed_name) = match create_pfx_der(
        &certificate,
        &private_key,
        friendly_name,
        password,
    ) {
        Ok(packed) => packed,
        Err(message) => {
            return Err(message);
        },
    };
    let mut issued = issued;
    issued.friendly_name = Some(packed_name);
    Ok(GeneratedCertificate { certificate, private_key, pfx_der, issued })
}

/// Generates an RSA key and a self-signed certificate for it as `plan`
/// says, and packs both in a PFX protected by `password`: each value of
/// the plan goes to the OpenSSL call that takes it, as the certificate's
/// record shows, and the certificate must carry the generated key.
pub fn generate_certificate(plan: &CertificatePlan, password: &str) -> (result: Result<
    GeneratedCertificate,
    String,
>)
    requires
        plan.valid_from_days <= MAX_VALIDITY_DAYS,
        plan.valid_until_days <= MAX_VALIDITY_DAYS,
        encode_utf8(plan.common_name@).len() <= MAX_COMMON_NAME_BYTES,
        has_no_nul(plan.friendly_name@),
        has_no_nul(password@),
    ensures
        result matches Ok(generated) ==> issued_as_planned(generated.issued@, *plan)
            && generated.pfx_der@.len() > 0,
        result matches Err(message) ==> generation_failure(message@),
{
    let rsa = match rsa_generate(plan.rsa_bits) {
        Ok(rsa) => rsa,
        Err(error) => {
            return Err(join2("failed to generate RSA private key: ", error.as_str()));
        },
    };
    let key = match pkey_from_rsa(rsa) {
        Ok(key) => key,
        Err(error) => {
            return Err(join2("failed to create private key: ", error.as_str()));
        },
    };
    let mut name_draft = match x509_name_builder() {
        Ok(builder) => builder,
        Err(error) => {
            return Err(join2("failed to create X.509 subject: ", error.as_str()));
        },
    };
    if let Err(error) = append_common_name(&mut name_draft, plan.common_name.as_str()) {
        return Err(join2("failed to set certificate common name: ", error.as_str()));
    }
    let subject_name = build_name(name_draft);
    let mut draft = match x509_builder(IssuedRecord::empty()) {
        Ok(draft) => draft,
        Err(error) => {
            return Err(join2("failed to create X.509 certificate: ", error.as_str()));
        },
    };
    if let Err(message) = fill_certificate(&mut draft, &subject_name, &key, plan) {
        return Err(message);
    }
    if let Err(error) = sign(&mut draft, &key, plan.signature_digest) {
        return Err(join2("failed to self-sign certificate: ", error.as_str()));
    }
    let (certificate, issued) = build_certificate(draft);
    let public_key = match x509_public_key(&certificate) {
        Ok(public_key) => public_key,
        Err(error) => {
            return Err(
                join2("failed to read generated certificate public key: ", error.as_str()),
            );
        },
    };
    let same = public_eq(&public_key, &key.key);
    assert(issued@.extensions =~= plan.extensions@);
    pack_checked_pair(certificate, key.key, issued, same, plan.friendly_name.as_str(), password)
}

} // verus!
