use vstd::prelude::*;

use openssl::encrypt::Encrypter;
use openssl::hash::MessageDigest;
use openssl::pkey::{PKey, Public};
use openssl::rsa::Padding;

use crate::certificate::identity::parse_x509;
use crate::text::{join2, reports};

verus! {

/// Public-key algorithms that wrap a vault key.
#[derive(Debug, Clone, Copy, PartialEq, Eq, Structural)]
pub enum KeyWrapAlgorithm {
    /// RSA-OAEP with SHA-256 for both the hash and MGF1 (software PFX).
    RsaOaepSha256,
    /// RSAES-PKCS1-v1_5 (CAC/PIV key transport).
    RsaPkcs1v15,
}

impl KeyWrapAlgorithm {
    pub open spec fn spec_name(self) -> Seq<char> {
        match self {
            KeyWrapAlgorithm::RsaOaepSha256 => "rsa-oaep-sha256"@,
            KeyWrapAlgorithm::RsaPkcs1v15 => "rsa-pkcs1-v1_5"@,
        }
    }

    /// The algorithm's name as vault files record it.
    pub fn name(self) -> (r: &'static str)
        ensures
            r@ == self.spec_name(),
    {
        match self {
            KeyWrapAlgorithm::RsaOaepSha256 => "rsa-oaep-sha256",
            KeyWrapAlgorithm::RsaPkcs1v15 => "rsa-pkcs1-v1_5",
        }
    }
}


#[verifier::external_type_specification]
#[verifier::external_body]
#[verifier::reject_recursive_types(T)]
pub struct ExPKey<T>(openssl::pkey::PKey<T>);

#[verifier::external_type_specification]
#[verifier::external_body]
pub struct ExPublic(openssl::pkey::Public);

/// `X509Ref::public_key` (openssl): the certificate's public key, or
/// OpenSSL's message.
#[verifier::external_body]
pub(crate) fn x509_public_key(certificate: &openssl::x509::X509) -> (result: Result<
    openssl::pkey::PKey<openssl::pkey::Public>,
    String,
>) {
    match certificate.public_key() {
        Ok(key) => Ok(key),
        Err(error) => Err(error.to_string()),
    }
}

#[verifier::external_type_specification]
#[verifier::external_body]
pub struct ExEncrypter<'a>(openssl::encrypt::Encrypter<'a>);

/// An RSA padding mode.
#[derive(Debug, Clone, Copy, PartialEq, Eq, Structural)]
pub enum RsaPaddingMode {
    Oaep,
    Pkcs1v15,
}

/// A digest used inside a padding.
#[derive(Debug, Clone, Copy, PartialEq, Eq, Structural)]
pub enum PaddingDigest {
    Sha256,
}

/// The padding settings an encrypter has been given, each if it was set.
#[derive(Debug, Clone, Copy, PartialEq, Eq, Structural)]
pub struct PaddingSettings {
    pub mode: Option<RsaPaddingMode>,
    pub oaep_digest: Option<PaddingDigest>,
    pub mgf1_digest: Option<PaddingDigest>,
}

pub open spec fn no_padding_settings() -> PaddingSettings {
    PaddingSettings { mode: None, oaep_digest: None, mgf1_digest: None }
}

/// The padding of an algorithm: OAEP with SHA-256 as its digest and as
/// MGF1's digest, or PKCS#1 v1.5 with nothing more.
pub open spec fn padding_for(algorithm: KeyWrapAlgorithm) -> PaddingSettings {
    match algorithm {
        KeyWrapAlgorithm::RsaOaepSha256 => PaddingSettings {
            mode: Some(RsaPaddingMode::Oaep),
            oaep_digest: Some(PaddingDigest::Sha256),
            mgf1_digest: Some(PaddingDigest::Sha256),
        },
        KeyWrapAlgorithm::RsaPkcs1v15 => PaddingSettings {
            mode: Some(RsaPaddingMode::Pkcs1v15),
            oaep_digest: None,
            mgf1_digest: None,
        },
    }
}

/// The padding an algorithm wraps a key with.
pub fn wrap_padding(algorithm: KeyWrapAlgorithm) -> (settings: PaddingSettings)
    ensures
        settings == padding_for(algorithm),
{
    match algorithm {
        KeyWrapAlgorithm::RsaOaepSha256 => PaddingSettings {
            mode: Some(RsaPaddingMode::Oaep),
            oaep_digest: Some(PaddingDigest::Sha256),
            mgf1_digest: Some(PaddingDigest::Sha256),
        },
        KeyWrapAlgorithm::RsaPkcs1v15 => PaddingSettings {
            mode: Some(RsaPaddingMode::Pkcs1v15),
            oaep_digest: None,
            mgf1_digest: None,
        },
    }
}

/// An encrypter and the padding settings it has been given.
pub struct EncrypterDraft<'a> {
    encrypter: Encrypter<'a>,
    settings: PaddingSettings,
}

/// `Encrypter::new` (openssl), with no padding set yet.
#[verifier::external_body]
fn encrypter_new<'a>(key: &'a PKey<Public>) -> (result: Result<EncrypterDraft<'a>, String>)
    ensures
        result matches Ok(draft) ==> draft.settings == no_padding_settings(),
{
    match Encrypter::new(key) {
        Ok(encrypter) => Ok(
            EncrypterDraft {
                encrypter,
                settings: PaddingSettings { mode: None, oaep_digest: None, mgf1_digest: None },
            },
        ),
        Err(error) => Err(error.to_string()),
    }
}

/// `Encrypter::set_rsa_padding` (openssl) with the padding `mode` names.
#[verifier::external_body]
fn set_padding_mode(draft: &mut EncrypterDraft<'_>, mode: RsaPaddingMode) -> (result: Result<
    (),
    String,
>)
    ensures
        final(draft).settings == if result is Ok {
            PaddingSettings { mode: Some(mode), ..old(draft).settings }
        } else {
            old(draft).settings
        },
{
    let padding = match mode {
        RsaPaddingMode::Oaep => Padding::PKCS1_OAEP,
        RsaPaddingMode::Pkcs1v15 => Padding::PKCS1,
    };
    match draft.encrypter.set_rsa_padding(padding) {
        Ok(()) => {
            draft.settings.mode = Some(mode);
            Ok(())
        },
        Err(error) => Err(error.to_string()),
    }
}

/// `Encrypter::set_rsa_oaep_md` (openssl) with the digest named.
#[verifier::external_body]
fn set_oaep_digest(draft: &mut EncrypterDraft<'_>, digest: PaddingDigest) -> (result: Result<
    (),
    String,
>)
    ensures
        final(draft).settings == if result is Ok {
            PaddingSettings { oaep_digest: Some(digest), ..old(draft).settings }
        } else {
            old(draft).settings
        },
{
    let message_digest = match digest {
        PaddingDigest::Sha256 => MessageDigest::sha256(),
    };
    match draft.encrypter.set_rsa_oaep_md(message_digest) {
        Ok(()) => {
            draft.settings.oaep_digest = Some(digest);
            Ok(())
        },
        Err(error) => Err(error.to_string()),
    }
}

/// `Encrypter::set_rsa_mgf1_md` (openssl) with the digest named.
#[verifier::external_body]
fn set_mgf1_digest(draft: &mut EncrypterDraft<'_>, digest: PaddingDigest) -> (result: Result<
    (),
    String,
>)
    ensures
        final(draft).settings == if result is Ok {
            PaddingSettings { mgf1_digest: Some(digest), ..old(draft).settings }
        } else {
            old(draft).settings
        },
{
    let message_digest = match digest {
        PaddingDigest::Sha256 => MessageDigest::sha256(),
    };
    match draft.encrypter.set_rsa_mgf1_md(message_digest) {
        Ok(()) => {
            draft.settings.mgf1_digest = Some(digest);
            Ok(())
        },
        Err(error) => Err(error.to_string()),
    }
}

/// `Encrypter::encrypt_len` (openssl): the buffer size encryption needs.
/// OpenSSL reports the largest output of the key, for RSA its modulus
/// size, which is never zero.
#[verifier::external_body]
fn encrypt_len(draft: &EncrypterDraft<'_>, plaintext: &[u8]) -> (result: Result<usize, String>)
    ensures
        result matches Ok(length) ==> length > 0,
{
    draft.encrypter.encrypt_len(plaintext).map_err(|error| error.to_string())
}

/// `Encrypter::encrypt` (openssl) into `output`: the number of bytes
/// written, at most the buffer's length and, as a public-key ciphertext
/// (for RSA, the modulus size), never zero. The padding is random, so
/// nothing is stated of the bytes.
#[verifier::external_body]
fn encrypt(draft: &EncrypterDraft<'_>, plaintext: &[u8], output: &mut Vec<u8>) -> (result: Result<
    usize,
    String,
>)
    ensures
        final(output)@.len() == old(output)@.len(),
        result matches Ok(written) ==> 0 < written <= old(output)@.len(),
{
    draft.encrypter.encrypt(plaintext, output.as_mut_slice()).map_err(|error| error.to_string())
}

/// The errors of RSA encryption with `algorithm`, one for each OpenSSL step
/// that the algorithm takes.
pub open spec fn encryption_failure(message: Seq<char>, algorithm: KeyWrapAlgorithm) -> bool {
    ||| reports(message, "failed to initialize RSA encrypter: "@)
    ||| (algorithm == KeyWrapAlgorithm::RsaOaepSha256 && {
        ||| reports(message, "failed to configure RSA-OAEP padding: "@)
        ||| reports(message, "failed to configure RSA-OAEP SHA-256: "@)
        ||| reports(message, "failed to configure RSA MGF1 SHA-256: "@)
    })
    ||| (algorithm == KeyWrapAlgorithm::RsaPkcs1v15 && reports(
        message,
        "failed to configure RSA padding: "@,
    ))
    ||| reports(message, "failed to determine wrapped-key length: "@)
    ||| reports(message, "failed to wrap vault key: "@)
}

/// The errors of wrapping a non-empty key under a certificate: OpenSSL
/// could not parse the certificate, read its public key, or encrypt.
pub open spec fn wrap_failure(message: Seq<char>, algorithm: KeyWrapAlgorithm) -> bool {
    ||| reports(message, "failed to parse X.509 certificate: "@)
    ||| reports(message, "failed to read certificate public key: "@)
    ||| encryption_failure(message, algorithm)
}

/// Gives an encrypter the padding settings `wanted` names, in the order
/// mode, OAEP digest, MGF1 digest, reporting the step that failed.
fn configure_padding(draft: &mut EncrypterDraft<'_>, wanted: PaddingSettings, algorithm: KeyWrapAlgorithm) -> (result: Result<
    (),
    String,
>)
    requires
        old(draft).settings == no_padding_settings(),
        wanted == padding_for(algorithm),
    ensures
        result is Ok ==> final(draft).settings == wanted,
        result matches Err(message) ==> encryption_failure(message@, algorithm),
{
    match wanted.mode {
        Some(mode) => {
            if let Err(error) = set_padding_mode(draft, mode) {
                let prefix = match mode {
                    RsaPaddingMode::Oaep => "failed to configure RSA-OAEP padding: ",
                    RsaPaddingMode::Pkcs1v15 => "failed to configure RSA padding: ",
                };
                return Err(join2(prefix, error.as_str()));
            }
        },
        None => {},
    }
    match wanted.oaep_digest {
        Some(digest) => {
            if let Err(error) = set_oaep_digest(draft, digest) {
                return Err(join2("failed to configure RSA-OAEP SHA-256: ", error.as_str()));
            }
        },
        None => {},
    }
    match wanted.mgf1_digest {
        Some(digest) => {
            if let Err(error) = set_mgf1_digest(draft, digest) {
                return Err(join2("failed to configure RSA MGF1 SHA-256: ", error.as_str()));
            }
        },
        None => {},
    }
    Ok(())
}

/// Encrypts with the public key and the padding of `algorithm`, reporting
/// the step that failed; the ciphertext comes with the padding settings
/// the encrypter was given.
fn rsa_encrypt_with(key: &PKey<Public>, algorithm: KeyWrapAlgorithm, plaintext: &[u8]) -> (result: Result<
    (Vec<u8>, PaddingSettings),
    String,
>)
    ensures
        result matches Ok(encrypted) ==> encrypted.1 == padding_for(algorithm)
            && encrypted.0@.len() > 0,
        result matches Err(message) ==> encryption_failure(message@, algorithm),
{
    let mut draft = match encrypter_new(key) {
        Ok(draft) => draft,
        Err(error) => {
            return Err(join2("failed to initialize RSA encrypter: ", error.as_str()));
        },
    };
    let wanted = wrap_padding(algorithm);
    if let Err(message) = configure_padding(&mut draft, wanted, algorithm) {
        return Err(message);
    }
    let length = match encrypt_len(&draft, plaintext) {
        Ok(length) => length,
        Err(error) => {
            return Err(join2("failed to determine wrapped-key length: ", error.as_str()));
        },
    };
    let mut wrapped = vec![0u8; length];
    match encrypt(&draft, plaintext, &mut wrapped) {
        Ok(written) => {
            wrapped.truncate(written);
            Ok((wrapped, draft.settings))
        },
        Err(error) => Err(join2("failed to wrap vault key: ", error.as_str())),
    }
}

/// Wraps a vault key under the public key of an X.509 certificate, with
/// the given algorithm. Only the public certificate is needed.
pub fn wrap_key_with_certificate(
    certificate_der: &[u8],
    algorithm: KeyWrapAlgorithm,
    plaintext_key: &[u8],
) -> (result: Result<Vec<u8>, String>)
    ensures
        plaintext_key@.len() == 0 ==> (result matches Err(message) && message@
            == "vault key cannot be empty"@),
        plaintext_key@.len() > 0 ==> (result matches Err(message) ==> wrap_failure(
            message@,
            algorithm,
        )),
        result matches Ok(wrapped) ==> wrapped@.len() > 0,
{
    if plaintext_key.len() == 0 {
        return Err(String::from_str("vault key cannot be empty"));
    }
    let certificate = match parse_x509(certificate_der) {
        Ok(certificate) => certificate,
        Err(error) => {
            return Err(join2("failed to parse X.509 certificate: ", error.as_str()));
        },
    };
    let public_key = match x509_public_key(&certificate) {
        Ok(key) => key,
        Err(error) => {
            return Err(join2("failed to read certificate public key: ", error.as_str()));
        },
    };
    match rsa_encrypt_with(&public_key, algorithm, plaintext_key) {
        Ok((wrapped, _settings)) => Ok(wrapped),
        Err(message) => Err(message),
    }
}

} // verus!
