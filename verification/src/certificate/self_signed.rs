//! Self-signed software certificates, packed in password-protected PFX
//! archives.
use vstd::prelude::*;

use vstd::utf8::encode_utf8;

use openssl::pkcs12::Pkcs12;
use openssl::pkey::{PKey, Private, Public};
use openssl::x509::X509;

use crate::certificate::issuance::{
    add_prefix, build_prefix, certificate_plan, generate_certificate, issued_for_options,
    ExtensionRecord, IssuedRecord,
};
use crate::certificate::key_wrap::x509_public_key;
use crate::text::{is_blank, is_blank_text, join2, reports};

verus! {

pub const DEFAULT_RSA_BITS: u32 = 3072;

pub const DEFAULT_VALIDITY_DAYS: u32 = 1825;

pub const DEFAULT_COMMON_NAME: &'static str = "PasswordOut Vault Key";

pub const DEFAULT_FRIENDLY_NAME: &'static str = "PasswordOut Vault Key";

/// The smallest RSA modulus, in bits, that a generated key may have.
pub const MIN_RSA_BITS: u32 = 2048;

/// The longest validity, in days, whose length in seconds fits the C
/// `long` of every platform (32 bits on Windows).
pub const MAX_VALIDITY_DAYS: u32 = 24855;

/// Bits of randomness in a certificate serial number.
pub const SERIAL_NUMBER_BITS: i32 = 128;

/// The longest common name, in UTF-8 bytes: the length must fit a C `int`.
pub const MAX_COMMON_NAME_BYTES: usize = 0x7FFF_FFFF;

/// Whether a text can become a C string: it holds no NUL character.
pub open spec fn has_no_nul(text: Seq<char>) -> bool {
    forall|i: int| 0 <= i < text.len() ==> text[i] != '\0'
}

/// What a generated certificate is made of.
#[derive(Debug, Clone)]
pub struct SelfSignedCertificateOptions {
    pub common_name: String,
    pub friendly_name: String,
    pub validity_days: u32,
    pub rsa_bits: u32,
}

impl Default for SelfSignedCertificateOptions {
    fn default() -> (options: Self)
        ensures
            options.common_name@ == DEFAULT_COMMON_NAME@,
            options.friendly_name@ == DEFAULT_FRIENDLY_NAME@,
            options.validity_days == DEFAULT_VALIDITY_DAYS,
            options.rsa_bits == DEFAULT_RSA_BITS,
    {
        SelfSignedCertificateOptions {
            common_name: String::from_str(DEFAULT_COMMON_NAME),
            friendly_name: String::from_str(DEFAULT_FRIENDLY_NAME),
            validity_days: DEFAULT_VALIDITY_DAYS,
            rsa_bits: DEFAULT_RSA_BITS,
        }
    }
}

/// Why options cannot make a certificate, checked in this order.
pub open spec fn options_problem(options: SelfSignedCertificateOptions) -> Option<Seq<char>> {
    if is_blank_text(options.common_name@) {
        Some("certificate common name cannot be empty"@)
    } else if is_blank_text(options.friendly_name@) {
        Some("PFX friendly name cannot be empty"@)
    } else if options.validity_days == 0 {
        Some("certificate validity must be at least one day"@)
    } else if options.rsa_bits < MIN_RSA_BITS {
        Some("RSA key size must be at least 2048 bits"@)
    } else {
        None
    }
}

/// Checks the options of a certificate before anything is generated.
pub fn validate_options(options: &SelfSignedCertificateOptions) -> (result: Result<(), String>)
    ensures
        match options_problem(*options) {
            None => result is Ok,
            Some(problem) => result matches Err(message) && message@ == problem,
        },
{
    if is_blank(options.common_name.as_str()) {
        return Err(String::from_str("certificate common name cannot be empty"));
    }
    if is_blank(options.friendly_name.as_str()) {
        return Err(String::from_str("PFX friendly name cannot be empty"));
    }
    if options.validity_days == 0 {
        return Err(String::from_str("certificate validity must be at least one day"));
    }
    if options.rsa_bits < MIN_RSA_BITS {
        return Err(String::from_str("RSA key size must be at least 2048 bits"));
    }
    Ok(())
}

/// A PFX password may not be empty.
pub fn validate_password(password: &str) -> (result: Result<(), String>)
    ensures
        password@.len() == 0 ==> (result matches Err(message) && message@
            == "PFX password cannot be empty"@),
        password@.len() > 0 ==> result is Ok,
{
    if password.unicode_len() == 0 {
        return Err(String::from_str("PFX password cannot be empty"));
    }
    Ok(())
}

#[verifier::external_type_specification]
#[verifier::external_body]
pub struct ExPrivate(openssl::pkey::Private);

#[verifier::external_type_specification]
#[verifier::external_body]
pub struct ExPkcs12(openssl::pkcs12::Pkcs12);

/// `PKeyRef::public_eq` (openssl): whether the two keys have the same
/// public components.
#[verifier::external_body]
pub(crate) fn public_eq(public_key: &PKey<Public>, private_key: &PKey<Private>) -> (same: bool) {
    public_key.public_eq(private_key)
}

/// `Pkcs12::from_der` (openssl).
#[verifier::external_body]
fn pkcs12_from_der(der: &[u8]) -> (result: Result<Pkcs12, String>) {
    Pkcs12::from_der(der).map_err(|error| error.to_string())
}

/// `Pkcs12Ref::parse2` (openssl): the certificate and the private key the
/// archive holds, each if present. The password becomes a C string, which
/// panics on a NUL character.
#[verifier::external_body]
fn pkcs12_parse(pfx: &Pkcs12, password: &str) -> (result: Result<
    (Option<X509>, Option<PKey<Private>>),
    String,
>)
    requires
        has_no_nul(password@),
{
    match pfx.parse2(password) {
        Ok(parsed) => Ok((parsed.cert, parsed.pkey)),
        Err(error) => Err(error.to_string()),
    }
}

/// A generated certificate, its private key and both packed in a PFX.
pub struct GeneratedCertificate {
    pub certificate: X509,
    pub private_key: PKey<Private>,
    pub pfx_der: Vec<u8>,
    /// What OpenSSL was given to make the certificate and the PFX.
    pub issued: IssuedRecord,
}

/// A certificate and private key taken out of a PFX.
pub struct LoadedPfx {
    pub certificate: X509,
    pub private_key: PKey<Private>,
}

/// The errors of making a serial number: OpenSSL could not allocate,
/// randomize or encode it.
pub open spec fn serial_failure(message: Seq<char>) -> bool {
    ||| reports(message, "failed to allocate certificate serial number: "@)
    ||| reports(message, "failed to generate certificate serial number: "@)
    ||| reports(message, "failed to encode certificate serial number: "@)
}

/// The errors of filling in a certificate, one for each OpenSSL step.
pub open spec fn fill_failure(message: Seq<char>) -> bool {
    ||| reports(message, "failed to set certificate version: "@)
    ||| serial_failure(message)
    ||| reports(message, "failed to set certificate serial number: "@)
    ||| reports(message, "failed to set certificate subject: "@)
    ||| reports(message, "failed to set certificate issuer: "@)
    ||| reports(message, "failed to set certificate public key: "@)
    ||| reports(message, "failed to set certificate start date: "@)
    ||| reports(message, "failed to set certificate expiration date: "@)
    ||| reports(message, "failed to apply certificate start date: "@)
    ||| reports(message, "failed to apply certificate expiration date: "@)
    ||| extension_failure(message)
}

/// The errors of adding the extensions: building or adding one of them.
pub open spec fn extension_failure(message: Seq<char>) -> bool {
    exists|kind: ExtensionRecord|
        #![trigger build_prefix(kind)]
        #![trigger add_prefix(kind)]
        reports(message, build_prefix(kind)) || reports(message, add_prefix(kind))
}

/// The errors of packing a PFX: OpenSSL could not build or encode it.
pub open spec fn pfx_failure(message: Seq<char>) -> bool {
    ||| reports(message, "failed to create PFX archive: "@)
    ||| reports(message, "failed to encode PFX archive: "@)
}

/// The errors of generating a certificate once its options and password
/// have been accepted: an OpenSSL step failed, or the certificate came out
/// without the generated key.
pub open spec fn generation_failure(message: Seq<char>) -> bool {
    ||| reports(message, "failed to generate RSA private key: "@)
    ||| reports(message, "failed to create private key: "@)
    ||| reports(message, "failed to create X.509 subject: "@)
    ||| reports(message, "failed to set certificate common name: "@)
    ||| reports(message, "failed to create X.509 certificate: "@)
    ||| fill_failure(message)
    ||| reports(message, "failed to self-sign certificate: "@)
    ||| reports(message, "failed to read generated certificate public key: "@)
    ||| message == "generated certificate does not match generated private key"@
    ||| pfx_failure(message)
}

/// The errors of opening a PFX with a non-empty password: OpenSSL could not
/// parse or unlock it or read its certificate's key, a part is missing, or
/// the parts do not belong together.
pub open spec fn load_failure(message: Seq<char>) -> bool {
    ||| reports(message, "failed to parse PFX data: "@)
    ||| reports(message, "failed to unlock PFX: "@)
    ||| message == "PFX does not contain a certificate"@
    ||| message == "PFX does not contain a private key"@
    ||| reports(message, "failed to read certificate public key: "@)
    ||| message == "PFX certificate does not match its private key"@
}

/// The certificate and the private key an unlocked PFX holds, or which of
/// the two it lacks (the certificate is looked for first).
pub fn pfx_parts(certificate: Option<X509>, private_key: Option<PKey<Private>>) -> (result: Result<
    (X509, PKey<Private>),
    String,
>)
    ensures
        match (certificate, private_key) {
            (Some(c), Some(k)) => result matches Ok(parts) && parts.0 == c && parts.1 == k,
            (None, _) => result matches Err(message) && message@
                == "PFX does not contain a certificate"@,
            (Some(_), None) => result matches Err(message) && message@
                == "PFX does not contain a private key"@,
        },
{
    let certificate = match certificate {
        Some(certificate) => certificate,
        None => {
            return Err(String::from_str("PFX does not contain a certificate"));
        },
    };
    let private_key = match private_key {
        Some(key) => key,
        None => {
            return Err(String::from_str("PFX does not contain a private key"));
        },
    };
    Ok((certificate, private_key))
}

/// A certificate and a private key taken together when OpenSSL found their
/// public components equal (`same`), else the mismatch error.
pub fn pair_if_matching(certificate: X509, private_key: PKey<Private>, same: bool) -> (result:
    Result<LoadedPfx, String>)
    ensures
        same ==> (result matches Ok(loaded) && loaded.certificate == certificate
            && loaded.private_key == private_key),
        !same ==> (result matches Err(message) && message@
            == "PFX certificate does not match its private key"@),
{
    if !same {
        return Err(String::from_str("PFX certificate does not match its private key"));
    }
    Ok(LoadedPfx { certificate, private_key })
}

/// Generates an RSA key and a self-signed certificate for it, and packs
/// both in a PFX protected by `password`. Invalid options and an empty
/// password are refused before anything is generated; then the certificate
/// is generated by `generate_certificate` from `certificate_plan(options)`.
pub fn create_self_signed_pfx(options: &SelfSignedCertificateOptions, password: &str) -> (result:
    Result<GeneratedCertificate, String>)
    requires
        options.validity_days <= MAX_VALIDITY_DAYS,
        options_problem(*options) is None && password@.len() > 0 ==> {
            &&& encode_utf8(options.common_name@).len() <= MAX_COMMON_NAME_BYTES
            &&& has_no_nul(options.friendly_name@)
            &&& has_no_nul(password@)
        },
    ensures
        options_problem(*options) matches Some(problem) ==> (result matches Err(message)
            && message@ == problem),
        options_problem(*options) is None && password@.len() == 0 ==> (result matches Err(message)
            && message@ == "PFX password cannot be empty"@),
        options_problem(*options) is None && password@.len() > 0 ==> (result matches Err(message)
            ==> generation_failure(message@)),
        result matches Ok(generated) ==> issued_for_options(generated.issued@, *options)
            && generated.pfx_der@.len() > 0,
{
    if let Err(message) = validate_options(options) {
        return Err(message);
    }
    if let Err(message) = validate_password(password) {
        return Err(message);
    }
    let plan = certificate_plan(options);
    generate_certificate(&plan, password)
}

/// Opens a PFX with its password and takes out the certificate and the
/// private key, which must belong together.
pub fn load_pfx_der(pfx_der: &[u8], password: &str) -> (result: Result<LoadedPfx, String>)
    requires
        has_no_nul(password@),
    ensures
        password@.len() == 0 ==> (result matches Err(message) && message@
            == "PFX password cannot be empty"@),
        password@.len() > 0 ==> (result matches Err(message) ==> load_failure(message@)),
{
    if let Err(message) = validate_password(password) {
        return Err(message);
    }
    let pfx = match pkcs12_from_der(pfx_der) {
        Ok(pfx) => pfx,
        Err(error) => {
            return Err(join2("failed to parse PFX data: ", error.as_str()));
        },
    };
    let (certificate, private_key) = match pkcs12_parse(&pfx, password) {
        Ok(parts) => parts,
        Err(error) => {
            return Err(join2("failed to unlock PFX: ", error.as_str()));
        },
    };
    let (certificate, private_key) = match pfx_parts(certificate, private_key) {
        Ok(parts) => parts,
        Err(message) => {
            return Err(message);
        },
    };
    let public_key = match x509_public_key(&certificate) {
        Ok(key) => key,
        Err(error) => {
            return Err(join2("failed to read certificate public key: ", error.as_str()));
        },
    };
    let same = public_eq(&public_key, &private_key);
    pair_if_matching(certificate, private_key, same)
}

} // verus!
