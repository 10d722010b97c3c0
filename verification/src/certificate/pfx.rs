//! A software certificate and its private key, taken from a PFX, as a key
//! provider for certificate-protected vaults.
use vstd::prelude::*;

use openssl::encrypt::Decrypter;
use openssl::hash::MessageDigest;
use openssl::pkey::{PKey, Private};
use openssl::rsa::Padding;
use openssl::x509::X509;

use crate::certificate::key_wrap::{x509_public_key, KeyWrapAlgorithm};
use crate::certificate::provider::{bytes_outcome, CertificatePrivateKey, CertificateSource, UnwrapCall};
use crate::certificate::self_signed::{public_eq, LoadedPfx};
use crate::text::{join2, reports};

verus! {

#[verifier::external_type_specification]
#[verifier::external_body]
pub struct ExDecrypter<'a>(openssl::encrypt::Decrypter<'a>);

/// `X509Ref::to_der` (openssl).
#[verifier::external_body]
fn x509_to_der(certificate: &X509) -> (result: Result<Vec<u8>, String>) {
    certificate.to_der().map_err(|error| error.to_string())
}

/// `Decrypter::new` (openssl).
#[verifier::external_body]
fn decrypter_new<'a>(key: &'a PKey<Private>) -> (result: Result<Decrypter<'a>, String>) {
    Decrypter::new(key).map_err(|error| error.to_string())
}

/// `Decrypter::set_rsa_padding` (openssl) with `Padding::PKCS1_OAEP`.
#[verifier::external_body]
fn decrypter_oaep_padding(decrypter: &mut Decrypter<'_>) -> (result: Result<(), String>) {
    decrypter.set_rsa_padding(Padding::PKCS1_OAEP).map_err(|error| error.to_string())
}

/// `Decrypter::set_rsa_padding` (openssl) with `Padding::PKCS1`.
#[verifier::external_body]
fn decrypter_pkcs1_padding(decrypter: &mut Decrypter<'_>) -> (result: Result<(), String>) {
    decrypter.set_rsa_padding(Padding::PKCS1).map_err(|error| error.to_string())
}

/// `Decrypter::set_rsa_oaep_md` (openssl) with SHA-256.
#[verifier::external_body]
fn decrypter_oaep_sha256(decrypter: &mut Decrypter<'_>) -> (result: Result<(), String>) {
    decrypter.set_rsa_oaep_md(MessageDigest::sha256()).map_err(|error| error.to_string())
}

/// `Decrypter::set_rsa_mgf1_md` (openssl) with SHA-256.
#[verifier::external_body]
fn decrypter_mgf1_sha256(decrypter: &mut Decrypter<'_>) -> (result: Result<(), String>) {
    decrypter.set_rsa_mgf1_md(MessageDigest::sha256()).map_err(|error| error.to_string())
}

/// `Decrypter::decrypt_len` (openssl): the buffer size decryption needs.
#[verifier::external_body]
fn decrypt_len(decrypter: &Decrypter<'_>, ciphertext: &[u8]) -> (result: Result<usize, String>) {
    decrypter.decrypt_len(ciphertext).map_err(|error| error.to_string())
}

/// `Decrypter::decrypt` (openssl) into `output`: the number of bytes
/// written.
#[verifier::external_body]
fn decrypt(decrypter: &Decrypter<'_>, ciphertext: &[u8], output: &mut Vec<u8>) -> (result: Result<usize, String>)
    ensures
        final(output)@.len() == old(output)@.len(),
{
    decrypter.decrypt(ciphertext, output.as_mut_slice()).map_err(|error| error.to_string())
}

/// Why a certificate and a private key make no provider: OpenSSL could not
/// read the certificate's public key, or the keys do not match.
pub open spec fn provider_failure(message: Seq<char>) -> bool {
    ||| reports(message, "failed to read PFX certificate public key: "@)
    ||| message == "PFX certificate does not match its private key"@
}

/// A certificate together with the private key that belongs to it.
pub struct PfxKeyProvider {
    certificate: X509,
    private_key: PKey<Private>,
    calls: Ghost<Seq<UnwrapCall>>,
}

impl PfxKeyProvider {
    pub closed spec fn certificate(&self) -> X509 {
        self.certificate
    }

    pub closed spec fn private_key(&self) -> PKey<Private> {
        self.private_key
    }

    /// A provider for a certificate and a private key that belong together.
    pub fn new(certificate: X509, private_key: PKey<Private>) -> (result: Result<Self, String>)
        ensures
            result matches Ok(provider) ==> provider.certificate() == certificate
                && provider.private_key() == private_key && provider.unwrap_calls().len() == 0,
            result matches Err(message) ==> provider_failure(message@),
    {
        let public_key = match x509_public_key(&certificate) {
            Ok(key) => key,
            Err(error) => {
                return Err(join2("failed to read PFX certificate public key: ", error.as_str()));
            },
        };
        if !public_eq(&public_key, &private_key) {
            return Err(String::from_str("PFX certificate does not match its private key"));
        }
        Ok(PfxKeyProvider { certificate, private_key, calls: Ghost(Seq::empty()) })
    }

    /// A provider for what a PFX held.
    pub fn from_loaded_pfx(loaded: LoadedPfx) -> (result: Result<Self, String>)
        ensures
            result matches Ok(provider) ==> provider.certificate() == loaded.certificate
                && provider.private_key() == loaded.private_key && provider.unwrap_calls().len()
                == 0,
            result matches Err(message) ==> provider_failure(message@),
    {
        Self::new(loaded.certificate, loaded.private_key)
    }
}

impl CertificateSource for PfxKeyProvider {
    /// The certificate in DER.
    fn certificate_der(&self) -> (result: Result<Vec<u8>, String>)
        ensures
            result matches Err(message) ==> reports(message@, "failed to encode PFX certificate: "@),
    {
        match x509_to_der(&self.certificate) {
            Ok(der) => Ok(der),
            Err(error) => Err(join2("failed to encode PFX certificate: ", error.as_str())),
        }
    }
}

impl CertificatePrivateKey for PfxKeyProvider {
    closed spec fn unwrap_calls(&self) -> Seq<UnwrapCall> {
        self.calls@
    }

    /// Decrypts a wrapped vault key with the private key, with the padding
    /// of `algorithm`. An empty wrapped key is refused before decryption.
    fn unwrap_key(&mut self, algorithm: KeyWrapAlgorithm, wrapped_key: &[u8]) -> (result: Result<
        Vec<u8>,
        String,
    >)
        ensures
            wrapped_key@.len() == 0 ==> (result matches Err(message) && message@
                == "wrapped vault key cannot be empty"@),
            final(self).certificate() == old(self).certificate(),
            final(self).private_key() == old(self).private_key(),
    {
        let result = self.decrypt_wrapped_key(algorithm, wrapped_key);
        self.calls = Ghost(
            self.calls@.push(
                UnwrapCall {
                    algorithm,
                    wrapped_key: wrapped_key@,
                    outcome: bytes_outcome(result),
                },
            ),
        );
        result
    }
}

impl PfxKeyProvider {
    fn decrypt_wrapped_key(&self, algorithm: KeyWrapAlgorithm, wrapped_key: &[u8]) -> (result:
        Result<Vec<u8>, String>)
        ensures
            wrapped_key@.len() == 0 ==> (result matches Err(message) && message@
                == "wrapped vault key cannot be empty"@),
    {
        if wrapped_key.len() == 0 {
            return Err(String::from_str("wrapped vault key cannot be empty"));
        }
        let mut decrypter = match decrypter_new(&self.private_key) {
            Ok(decrypter) => decrypter,
            Err(error) => {
                return Err(join2("failed to initialize RSA decrypter: ", error.as_str()));
            },
        };
        match algorithm {
            KeyWrapAlgorithm::RsaOaepSha256 => {
                if let Err(error) = decrypter_oaep_padding(&mut decrypter) {
                    return Err(join2("failed to configure RSA-OAEP padding: ", error.as_str()));
                }
                if let Err(error) = decrypter_oaep_sha256(&mut decrypter) {
                    return Err(join2("failed to configure RSA-OAEP SHA-256: ", error.as_str()));
                }
                if let Err(error) = decrypter_mgf1_sha256(&mut decrypter) {
                    return Err(join2("failed to configure RSA MGF1 SHA-256: ", error.as_str()));
                }
            },
            KeyWrapAlgorithm::RsaPkcs1v15 => {
                if let Err(error) = decrypter_pkcs1_padding(&mut decrypter) {
                    return Err(join2("failed to configure RSA padding: ", error.as_str()));
                }
            },
        }
        let length = match decrypt_len(&decrypter, wrapped_key) {
            Ok(length) => length,
            Err(error) => {
                return Err(join2("failed to determine unwrapped-key length: ", error.as_str()));
            },
        };
        let mut plaintext = vec![0u8; length];
        match decrypt(&decrypter, wrapped_key, &mut plaintext) {
            Ok(written) => {
                plaintext.truncate(written);
                Ok(plaintext)
            },
            Err(error) => Err(join2("failed to unwrap vault key: ", error.as_str())),
        }
    }
}

} // verus!
