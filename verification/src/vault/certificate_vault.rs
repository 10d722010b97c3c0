//! Vaults protected by an X.509 certificate: a random vault key encrypts
//! the payload; the certificate's public key and a backup password each
//! wrap that key.
use vstd::prelude::*;

use crate::certificate::identity::{
    check_fingerprint, checked_identity, has_certificate_parts, CertificateIdentity,
};
use crate::certificate::key_wrap::{wrap_key_with_certificate, KeyWrapAlgorithm};
use crate::certificate::provider::{
    bytes_outcome, CertificateKeyProvider, CertificatePrivateKey, CertificateSource, UnwrapCall,
};
use crate::certificate::identity::certificate_identity_from_der;
use crate::text::{decimal_string, join2, join3};
use crate::vault::crypto::{
    base64_padded_decoded, create_password_wrapper, decode_padded,
    decrypt_payload_with_key, encode_padded, encrypt_payload_with_key, generate_vault_key, gives,
    payload_under_key, unwrap_key_with_password, unwrapped_key, argon2_callable, envelope_callable,
};
use crate::vault::format::{
    backend_problem, copy_unlock, envelope_problem, CertificateBackend, CertificateKeyWrapper,
    CipherPayload,
    PasswordKeyWrapper, VaultEnvelope, VaultEnvelopeV2, VaultUnlockMethod,
    CURRENT_VAULT_FORMAT_VERSION,
};
use crate::vault::service::{backup_callable, recovered_plaintext, vault_exists_message};

verus! {

/// The algorithm that wraps the vault key for a backend: PKCS#1 v1.5 for a
/// CAC/PIV card, RSA-OAEP with SHA-256 for a software PFX.
pub open spec fn backend_algorithm(backend: CertificateBackend) -> KeyWrapAlgorithm {
    match backend {
        CertificateBackend::Cac { .. } => KeyWrapAlgorithm::RsaPkcs1v15,
        CertificateBackend::Pfx { .. } => KeyWrapAlgorithm::RsaOaepSha256,
    }
}

pub fn key_wrap_algorithm_for_backend(backend: &CertificateBackend) -> (algorithm: KeyWrapAlgorithm)
    ensures
        algorithm == backend_algorithm(*backend),
{
    match backend {
        CertificateBackend::Cac { .. } => KeyWrapAlgorithm::RsaPkcs1v15,
        CertificateBackend::Pfx { .. } => KeyWrapAlgorithm::RsaOaepSha256,
    }
}

/// Asks a provider's private key to unwrap a vault key once the identity
/// of the provider's certificate has been read: a failed read is returned
/// as it is, and a certificate whose fingerprint is not the expected one is
/// refused; in both cases the private key is not asked.
pub fn unwrap_key_for_identity<P: CertificatePrivateKey>(
    provider: &mut P,
    expected_identity: &CertificateIdentity,
    provided_identity: Result<CertificateIdentity, String>,
    algorithm: KeyWrapAlgorithm,
    wrapped_key: &[u8],
) -> (result: Result<Vec<u8>, String>)
    ensures
        match checked_identity(*expected_identity, provided_identity) {
            Err(problem) => result matches Err(message) && message@ == problem && *final(provider)
                == *old(provider),
            Ok(_) => final(provider).unwrap_calls() == old(provider).unwrap_calls().push(
                UnwrapCall {
                    algorithm,
                    wrapped_key: wrapped_key@,
                    outcome: bytes_outcome(result),
                },
            ),
        },
{
    let actual = match provided_identity {
        Ok(identity) => identity,
        Err(error) => {
            return Err(error);
        },
    };
    match check_fingerprint(expected_identity, actual) {
        Ok(_) => {},
        Err(error) => {
            return Err(error);
        },
    }
    provider.unwrap_key(algorithm, wrapped_key)
}

/// Recovers a wrapped vault key through a provider, after checking that the
/// provider's certificate is the one the vault records.
///
/// An empty wrapped key is refused first. Otherwise either the provider's
/// private key was not asked and the result is an error (its certificate
/// could not be had or read, or is another one), or it was asked once, for
/// `algorithm` and `wrapped_key`, and the result is its answer.
pub fn unwrap_key_with_provider<P: CertificateKeyProvider>(
    provider: &mut P,
    expected_identity: &CertificateIdentity,
    algorithm: KeyWrapAlgorithm,
    wrapped_key: &[u8],
) -> (result: Result<Vec<u8>, String>)
    ensures
        wrapped_key@.len() == 0 ==> (result matches Err(message) && message@
            == "wrapped vault key cannot be empty"@) && *final(provider) == *old(provider),
        wrapped_key@.len() > 0 ==> (old(provider).certificate_answer() matches Some(Err(problem))
            ==> (result matches Err(message) && message@ == problem
            && *final(provider) == *old(provider))),
        wrapped_key@.len() > 0 ==> {
            ||| result is Err && *final(provider) == *old(provider)
            ||| final(provider).unwrap_calls() == old(provider).unwrap_calls().push(
                UnwrapCall {
                    algorithm,
                    wrapped_key: wrapped_key@,
                    outcome: bytes_outcome(result),
                },
            )
        },
{
    if wrapped_key.len() == 0 {
        return Err(String::from_str("wrapped vault key cannot be empty"));
    }
    let certificate_der = match provider.certificate_der() {
        Ok(der) => der,
        Err(error) => {
            return Err(error);
        },
    };
    let provided_identity = certificate_identity_from_der(certificate_der.as_slice());
    unwrap_key_for_identity(provider, expected_identity, provided_identity, algorithm, wrapped_key)
}

/// The recovered key of an opened certificate vault and the wrappers it was
/// opened with, so that saving keeps the vault's protection.
pub struct CertificateVaultSession {
    version: u32,
    unlock: VaultUnlockMethod,
    vault_key: [u8; 32],
}

impl CertificateVaultSession {
    pub closed spec fn spec_version(&self) -> u32 {
        self.version
    }

    pub closed spec fn spec_unlock(&self) -> VaultUnlockMethod {
        self.unlock
    }

    pub closed spec fn spec_key(&self) -> Seq<u8> {
        self.vault_key@
    }
}

pub open spec fn v1_certificate_message() -> Seq<char> {
    "version-1 vaults do not support certificate unlock"@
}

/// Why a vault cannot be opened with a certificate before any key is
/// asked for, if it cannot.
pub open spec fn certificate_open_problem(envelope: VaultEnvelope) -> Option<Seq<char>> {
    match envelope {
        VaultEnvelope::V1(_) => Some(v1_certificate_message()),
        VaultEnvelope::V2(version_2) => match version_2.unlock {
            VaultUnlockMethod::Password { .. } => Some(
                "this vault uses password unlock; use the password unlock command"@,
            ),
            VaultUnlockMethod::Cac { .. } => Some(
                "this vault uses the legacy CAC format; use the CAC unlock or backup recovery command"@,
            ),
            VaultUnlockMethod::Certificate { certificate_wrapper, .. } => match base64_padded_decoded(
                certificate_wrapper.wrapped_key@,
            ) {
                Err(problem) => Some(
                    "certificate-wrapped vault key is not valid base64: "@ + problem,
                ),
                Ok(_) => None,
            },
        },
    }
}

/// Opens a certificate vault through a provider whose certificate must be
/// the one the vault records, and returns the serialized payload with a
/// session that can save the vault again.
///
/// The provider's answer is whatever it is; when it is a 32-byte key, the
/// payload is what that key decrypts, and the session holds that key and
/// the vault's wrappers.
pub fn open_certificate_vault_session<P: CertificateKeyProvider>(
    envelope: VaultEnvelope,
    provider: &mut P,
) -> (result: Result<(Vec<u8>, CertificateVaultSession), String>)
    ensures
        certificate_open_problem(envelope) is Some ==> (result matches Err(message) && message@
            == certificate_open_problem(envelope)->Some_0),
        result matches Ok((plaintext, session)) ==> {
            &&& envelope matches VaultEnvelope::V2(version_2)
            &&& session.spec_version() == version_2.version
            &&& session.spec_unlock() == version_2.unlock
            &&& session.spec_key().len() == 32
            &&& gives(payload_under_key(version_2.cipher, session.spec_key()), plaintext@)
            &&& version_2.unlock matches VaultUnlockMethod::Certificate { certificate_wrapper, .. }
                && final(provider).unwrap_calls() == old(provider).unwrap_calls().push(
                UnwrapCall {
                    algorithm: certificate_wrapper.algorithm,
                    wrapped_key: base64_padded_decoded(certificate_wrapper.wrapped_key@)->Ok_0,
                    outcome: Ok(session.spec_key()),
                },
            )
        },
{
    let version_2 = match envelope {
        VaultEnvelope::V1(_) => {
            return Err(String::from_str("version-1 vaults do not support certificate unlock"));
        },
        VaultEnvelope::V2(version_2) => version_2,
    };
    let (identity, algorithm, wrapped_text) = match &version_2.unlock {
        VaultUnlockMethod::Password { .. } => {
            return Err(
                String::from_str("this vault uses password unlock; use the password unlock command"),
            );
        },
        VaultUnlockMethod::Cac { .. } => {
            return Err(
                String::from_str(
                    "this vault uses the legacy CAC format; use the CAC unlock or backup recovery command",
                ),
            );
        },
        VaultUnlockMethod::Certificate { certificate_wrapper, .. } => (
            &certificate_wrapper.identity,
            certificate_wrapper.algorithm,
            certificate_wrapper.wrapped_key.as_str(),
        ),
    };
    let wrapped_key = match decode_padded(wrapped_text) {
        Ok(bytes) => bytes,
        Err(error) => {
            return Err(join2("certificate-wrapped vault key is not valid base64: ", error.as_str()));
        },
    };
    let unwrapped = match unwrap_key_with_provider(
        provider,
        identity,
        algorithm,
        wrapped_key.as_slice(),
    ) {
        Ok(key) => key,
        Err(error) => {
            return Err(error);
        },
    };
    if unwrapped.len() != 32 {
        let mut message = join2(
            "certificate provider returned a ",
            decimal_string(unwrapped.len() as u64).as_str(),
        );
        message.append("-byte vault key; expected 32 bytes");
        return Err(message);
    }
    let mut vault_key = [0u8; 32];
    let mut index: usize = 0;
    while index < 32
        invariant
            unwrapped@.len() == 32,
            index <= 32,
            forall|i: int| 0 <= i < index ==> vault_key@[i] == unwrapped@[i],
        decreases 32 - index,
    {
        vault_key[index] = unwrapped[index];
        index = index + 1;
    }
    assert(vault_key@ =~= unwrapped@);
    let plaintext = match decrypt_payload_with_key(&version_2.cipher, &vault_key) {
        Ok(plaintext) => plaintext,
        Err(error) => {
            return Err(error);
        },
    };
    let VaultEnvelopeV2 { version, unlock, cipher: _ } = version_2;
    Ok((plaintext, CertificateVaultSession { version, unlock, vault_key }))
}

/// Some 32-byte key decrypts the vault's payload to `plaintext`.
pub open spec fn opens_with_some_key(envelope: VaultEnvelope, plaintext: Seq<u8>) -> bool {
    &&& envelope is V2
    &&& exists|key: Seq<u8>|
        key.len() == 32 && #[trigger] gives(payload_under_key(envelope->V2_0.cipher, key), plaintext)
}

/// Opens a certificate vault through a provider without keeping a session.
pub fn load_certificate_vault<P: CertificateKeyProvider>(
    envelope: VaultEnvelope,
    provider: &mut P,
) -> (result: Result<Vec<u8>, String>)
    ensures
        certificate_open_problem(envelope) is Some ==> (result matches Err(message) && message@
            == certificate_open_problem(envelope)->Some_0),
        result matches Ok(plaintext) ==> opens_with_some_key(envelope, plaintext@),
{
    match open_certificate_vault_session(envelope, provider) {
        Ok((plaintext, session)) => {
            assert(session.spec_key().len() == 32);
            assert(gives(payload_under_key(envelope->V2_0.cipher, session.spec_key()), plaintext@));
            assert(opens_with_some_key(envelope, plaintext@));
            Ok(plaintext)
        },
        Err(error) => Err(error),
    }
}

/// The vault file that saves `plaintext` in an opened certificate vault: a
/// fresh payload nonce under the session's key, with the vault's version and
/// wrappers kept as they were.
///
/// The saved vault decrypts under the session's key to `plaintext`.
pub fn save_certificate_vault_session(plaintext: &[u8], session: &CertificateVaultSession) -> (result:
    Result<VaultEnvelope, String>)
    ensures
        !(session.spec_unlock() is Certificate) ==> (result matches Err(message) && message@
            == "certificate session does not contain a certificate unlock wrapper"@),
        result matches Ok(envelope) ==> {
            &&& envelope matches VaultEnvelope::V2(version_2)
            &&& version_2.version == session.spec_version()
            &&& version_2.unlock == session.spec_unlock()
            &&& gives(payload_under_key(version_2.cipher, session.spec_key()), plaintext@)
            &&& envelope_problem(envelope) is None
        },
{
    match &session.unlock {
        VaultUnlockMethod::Certificate { .. } => {},
        _ => {
            return Err(
                String::from_str("certificate session does not contain a certificate unlock wrapper"),
            );
        },
    }
    let cipher = match encrypt_payload_with_key(plaintext, &session.vault_key) {
        Ok(cipher) => cipher,
        Err(error) => {
            return Err(error);
        },
    };
    let envelope = VaultEnvelope::V2(
        VaultEnvelopeV2 { version: session.version, unlock: copy_unlock(&session.unlock), cipher },
    );
    match envelope.validate() {
        Ok(()) => {},
        Err(error) => {
            return Err(error);
        },
    }
    Ok(envelope)
}

/// The certificate vault made of its parts, or the first problem the
/// vault format finds in it.
pub fn certificate_envelope(
    version: u32,
    certificate_wrapper: CertificateKeyWrapper,
    backup_wrapper: PasswordKeyWrapper,
    cipher: CipherPayload,
) -> (result: Result<VaultEnvelope, String>)
    ensures
        ({
            let envelope = VaultEnvelope::V2(
                VaultEnvelopeV2 {
                    version,
                    unlock: VaultUnlockMethod::Certificate { certificate_wrapper, backup_wrapper },
                    cipher,
                },
            );
            match envelope_problem(envelope) {
                Some(problem) => result matches Err(message) && message@ == problem,
                None => result == Ok::<VaultEnvelope, String>(envelope),
            }
        }),
{
    let envelope = VaultEnvelope::V2(
        VaultEnvelopeV2 {
            version,
            unlock: VaultUnlockMethod::Certificate { certificate_wrapper, backup_wrapper },
            cipher,
        },
    );
    match envelope.validate() {
        Ok(()) => {},
        Err(error) => {
            return Err(error);
        },
    }
    Ok(envelope)
}

/// Creates a certificate vault holding the serialized empty payload: a
/// fresh random vault key encrypts it; the certificate's public key and the
/// backup password each wrap the key.
///
/// The backup password opens the new vault to the same payload.
pub fn initialize_certificate_vault<S: CertificateSource>(
    path: &str,
    vault_exists: bool,
    backup_password: &str,
    certificate_source: &S,
    backend: CertificateBackend,
    empty_payload: &[u8],
) -> (result: Result<VaultEnvelope, String>)
    ensures
        vault_exists ==> (result matches Err(message) && message@ == vault_exists_message(path@)),
        !vault_exists && backend_problem(backend) is Some ==> (result matches Err(message)
            && message@ == backend_problem(backend)->Some_0),
        backup_password@.len() == 0 ==> result is Err,
        result matches Ok(envelope) ==> {
            &&& envelope matches VaultEnvelope::V2(version_2)
            &&& version_2.version == CURRENT_VAULT_FORMAT_VERSION
            &&& version_2.unlock matches VaultUnlockMethod::Certificate { certificate_wrapper, .. }
            &&& certificate_wrapper.backend == backend
            &&& certificate_wrapper.algorithm == backend_algorithm(backend)
            &&& has_certificate_parts(certificate_wrapper.identity)
            &&& envelope_problem(envelope) is None
            &&& envelope_callable(envelope)
            &&& gives(recovered_plaintext(envelope, backup_password@), empty_payload@)
        },
{
    if vault_exists {
        return Err(join3("vault already exists at '", path, "'"));
    }
    match backend.validate() {
        Ok(()) => {},
        Err(error) => {
            return Err(error);
        },
    }
    let certificate_der = match certificate_source.certificate_der() {
        Ok(der) => der,
        Err(error) => {
            return Err(error);
        },
    };
    let identity = match certificate_identity_from_der(certificate_der.as_slice()) {
        Ok(identity) => identity,
        Err(error) => {
            return Err(error);
        },
    };
    let vault_key = generate_vault_key();
    let cipher = match encrypt_payload_with_key(empty_payload, &vault_key) {
        Ok(cipher) => cipher,
        Err(error) => {
            return Err(error);
        },
    };
    let algorithm = key_wrap_algorithm_for_backend(&backend);
    let wrapped_key = match wrap_key_with_certificate(
        certificate_der.as_slice(),
        algorithm,
        vault_key.as_slice(),
    ) {
        Ok(wrapped) => wrapped,
        Err(error) => {
            return Err(error);
        },
    };
    let backup_wrapper = match create_password_wrapper(&vault_key, backup_password) {
        Ok(wrapper) => wrapper,
        Err(error) => {
            return Err(error);
        },
    };
    let certificate_wrapper = CertificateKeyWrapper {
        backend,
        identity,
        algorithm,
        wrapped_key: encode_padded(wrapped_key.as_slice()),
    };
    certificate_envelope(CURRENT_VAULT_FORMAT_VERSION, certificate_wrapper, backup_wrapper, cipher)
}

/// Why a vault's certificate cannot be rotated before any key is asked for.
pub open spec fn rotation_problem(envelope: VaultEnvelope) -> Option<Seq<char>> {
    match envelope {
        VaultEnvelope::V1(_) => Some("version-1 vaults do not support certificate rotation"@),
        VaultEnvelope::V2(version_2) => match version_2.unlock {
            VaultUnlockMethod::Password { .. } => Some(
                "this vault uses normal password protection and has no certificate to rotate"@,
            ),
            _ => None,
        },
    }
}

pub open spec fn backup_wrapper_of(unlock: VaultUnlockMethod) -> PasswordKeyWrapper {
    match unlock {
        VaultUnlockMethod::Password { wrapper } => wrapper,
        VaultUnlockMethod::Cac { backup_wrapper, .. } => backup_wrapper,
        VaultUnlockMethod::Certificate { backup_wrapper, .. } => backup_wrapper,
    }
}

/// The vault key that the backup password recovers for a rotation, or why
/// there is none: the vault must be a version-2 vault with a certificate
/// or CAC wrapper, the backup wrapper must open under the password, and
/// the key must decrypt the payload.
pub open spec fn rotation_key(envelope: VaultEnvelope, backup_password: Seq<char>) -> Result<
    Seq<u8>,
    Seq<char>,
> {
    match rotation_problem(envelope) {
        Some(problem) => Err(problem),
        None => {
            let version_2 = envelope->V2_0;
            match unwrapped_key(backup_wrapper_of(version_2.unlock), backup_password) {
                Err(problem) => Err(problem),
                Ok(key) => match payload_under_key(version_2.cipher, key) {
                    Err(problem) => Err(problem),
                    Ok(_) => Ok(key),
                },
            }
        },
    }
}

/// Recovers the vault key of a vault whose certificate is to be replaced,
/// with the backup password, and checks it against the payload.
pub fn recover_rotation_key(envelope: &VaultEnvelope, backup_password: &str) -> (result: Result<
    [u8; 32],
    String,
>)
    requires
        backup_callable(*envelope),
    ensures
        match rotation_key(*envelope, backup_password@) {
            Ok(key) => result matches Ok(recovered) && recovered@ == key,
            Err(problem) => result matches Err(message) && message@ == problem,
        },
{
    let version_2 = match envelope {
        VaultEnvelope::V1(_) => {
            return Err(String::from_str("version-1 vaults do not support certificate rotation"));
        },
        VaultEnvelope::V2(version_2) => version_2,
    };
    let backup_wrapper = match &version_2.unlock {
        VaultUnlockMethod::Password { .. } => {
            return Err(
                String::from_str(
                    "this vault uses normal password protection and has no certificate to rotate",
                ),
            );
        },
        VaultUnlockMethod::Cac { backup_wrapper, .. } => backup_wrapper,
        VaultUnlockMethod::Certificate { backup_wrapper, .. } => backup_wrapper,
    };
    let vault_key = match unwrap_key_with_password(backup_wrapper, backup_password) {
        Ok(key) => key,
        Err(error) => {
            return Err(error);
        },
    };
    match decrypt_payload_with_key(&version_2.cipher, &vault_key) {
        Ok(_) => {},
        Err(error) => {
            return Err(error);
        },
    }
    Ok(vault_key)
}

/// Replaces the certificate that protects a vault, using the backup
/// password: the vault key recovered from the backup wrapper is checked
/// against the payload and wrapped under the new certificate.
///
/// The encrypted payload and the backup-password wrapper stay exactly as
/// they were; only the certificate wrapper changes.
pub fn rotate_certificate_with_backup_password<S: CertificateSource>(
    envelope: VaultEnvelope,
    backup_password: &str,
    certificate_source: &S,
    backend: CertificateBackend,
) -> (result: Result<VaultEnvelope, String>)
    requires
        backup_callable(envelope),
    ensures
        backend_problem(backend) is Some ==> (result matches Err(message) && message@
            == backend_problem(backend)->Some_0),
        rotation_key(envelope, backup_password@) is Err ==> result is Err,
        result matches Ok(rotated) ==> {
            &&& rotation_key(envelope, backup_password@) is Ok
            &&& recovered_plaintext(rotated, backup_password@) is Ok
            &&& forall|password: Seq<char>| #[trigger] recovered_plaintext(rotated, password)
                == recovered_plaintext(envelope, password)
            &&& envelope matches VaultEnvelope::V2(before)
            &&& rotated matches VaultEnvelope::V2(after)
            &&& after.version == before.version
            &&& after.cipher == before.cipher
            &&& after.unlock matches VaultUnlockMethod::Certificate {
                certificate_wrapper,
                backup_wrapper,
            }
            &&& backup_wrapper == backup_wrapper_of(before.unlock)
            &&& has_certificate_parts(certificate_wrapper.identity)
            &&& certificate_wrapper.backend == backend
            &&& certificate_wrapper.algorithm == backend_algorithm(backend)
            &&& envelope_problem(rotated) is None
        },
{
    match backend.validate() {
        Ok(()) => {},
        Err(error) => {
            return Err(error);
        },
    }
    let certificate_der = match certificate_source.certificate_der() {
        Ok(der) => der,
        Err(error) => {
            return Err(error);
        },
    };
    let identity = match certificate_identity_from_der(certificate_der.as_slice()) {
        Ok(identity) => identity,
        Err(error) => {
            return Err(error);
        },
    };
    let vault_key = match recover_rotation_key(&envelope, backup_password) {
        Ok(key) => key,
        Err(error) => {
            return Err(error);
        },
    };
    let version_2 = match envelope {
        VaultEnvelope::V1(_) => {
            return Err(String::from_str("version-1 vaults do not support certificate rotation"));
        },
        VaultEnvelope::V2(version_2) => version_2,
    };
    let VaultEnvelopeV2 { version, unlock, cipher } = version_2;
    let backup_wrapper = match unlock {
        VaultUnlockMethod::Password { .. } => {
            return Err(
                String::from_str(
                    "this vault uses normal password protection and has no certificate to rotate",
                ),
            );
        },
        VaultUnlockMethod::Cac { backup_wrapper, .. } => backup_wrapper,
        VaultUnlockMethod::Certificate { backup_wrapper, .. } => backup_wrapper,
    };
    let algorithm = key_wrap_algorithm_for_backend(&backend);
    let wrapped_key = match wrap_key_with_certificate(
        certificate_der.as_slice(),
        algorithm,
        vault_key.as_slice(),
    ) {
        Ok(wrapped) => wrapped,
        Err(error) => {
            return Err(error);
        },
    };
    let certificate_wrapper = CertificateKeyWrapper {
        backend,
        identity,
        algorithm,
        wrapped_key: encode_padded(wrapped_key.as_slice()),
    };
    certificate_envelope(version, certificate_wrapper, backup_wrapper, cipher)
}

pub open spec fn session_path_message(opened: Seq<char>, requested: Seq<char>) -> Seq<char> {
    "certificate session was opened for '"@ + opened + "' but save requested '"@ + requested
        + "'"@
}

/// Whether a certificate vault may be saved at `path`: it must have been
/// opened, and at the same path.
pub fn check_session_path(opened: Option<&str>, path: &str) -> (result: Result<(), String>)
    ensures
        opened is None ==> (result matches Err(message) && message@
            == "certificate vault must be loaded before it can be saved"@),
        opened matches Some(at) ==> (at@ != path@ ==> (result matches Err(message) && message@
            == session_path_message(at@, path@))) && (at@ == path@ ==> result is Ok),
{
    match opened {
        None => Err(String::from_str("certificate vault must be loaded before it can be saved")),
        Some(at) => {
            if crate::text::str_eq(at, path) {
                Ok(())
            } else {
                let mut message = join3("certificate session was opened for '", at, "' but save requested '");
                message.append(path);
                message.append("'");
                Err(message)
            }
        },
    }
}

} // verus!
