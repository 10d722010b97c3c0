use vstd::prelude::*;

use crate::certificate::identity::CertificateIdentity;
use crate::certificate::key_wrap::KeyWrapAlgorithm;
use crate::text::{
    decimal, decimal_string, eq_ascii_ci, eq_ignore_ascii_case, is_blank, is_blank_text, join2,
    join3, str_eq,
};

verus! {

pub const VAULT_FORMAT_VERSION_V1: u32 = 1;

pub const VAULT_FORMAT_VERSION_V2: u32 = 2;

pub const CURRENT_VAULT_FORMAT_VERSION: u32 = 2;

pub const KDF_ALGORITHM: &'static str = "argon2id";

pub const CIPHER_ALGORITHM: &'static str = "xchacha20poly1305";

pub const CAC_WRAP_ALGORITHM_RSA_OAEP_SHA256: &'static str = "rsa-oaep-sha256";

pub const CAC_KEY_MANAGEMENT_SLOT: &'static str = "9D";

pub const DEFAULT_CLIPBOARD_CLEAR_SECONDS: u64 = 30;

pub const MIN_CLIPBOARD_CLEAR_SECONDS: u64 = 1;

pub const MAX_CLIPBOARD_CLEAR_SECONDS: u64 = 86400;

/// A vault file: the version-1 password-only format, or the version-2
/// format in which a random vault key encrypts the payload and unlock
/// wrappers protect that key.
#[derive(Debug, Clone, PartialEq, Eq)]
pub enum VaultEnvelope {
    V1(VaultEnvelopeV1),
    V2(VaultEnvelopeV2),
}

/// Version 1: an Argon2id-derived key encrypts the payload directly.
#[derive(Debug, Clone, PartialEq, Eq)]
pub struct VaultEnvelopeV1 {
    pub version: u32,
    pub kdf: KdfParameters,
    pub cipher: CipherPayload,
}

/// Version 2: a random vault key encrypts the payload; `unlock` protects
/// the key.
#[derive(Debug, Clone, PartialEq, Eq)]
pub struct VaultEnvelopeV2 {
    pub version: u32,
    pub unlock: VaultUnlockMethod,
    pub cipher: CipherPayload,
}

/// How the vault key of a version-2 vault is recovered.
#[derive(Debug, Clone, PartialEq, Eq)]
pub enum VaultUnlockMethod {
    /// Only an Argon2id password wrapper protects the key.
    Password { wrapper: PasswordKeyWrapper },
    /// The legacy CAC-specific wrapper with a backup-password wrapper.
    Cac { cac_wrapper: CacKeyWrapper, backup_wrapper: PasswordKeyWrapper },
    /// A generic X.509 certificate wrapper with a backup-password wrapper.
    Certificate { certificate_wrapper: CertificateKeyWrapper, backup_wrapper: PasswordKeyWrapper },
}

/// The vault key encrypted under a password-derived key.
#[derive(Debug, Clone, PartialEq, Eq)]
pub struct PasswordKeyWrapper {
    pub kdf: KdfParameters,
    pub cipher: CipherPayload,
}

/// The legacy CAC-specific wrapper.
#[derive(Debug, Clone, PartialEq, Eq)]
pub struct CacKeyWrapper {
    /// PIV key reference, normally "9D".
    pub slot: String,
    /// SHA-256 fingerprint of the DER certificate.
    pub certificate_sha256: String,
    /// Public-key wrapping algorithm.
    pub algorithm: String,
    /// Base64 vault key encrypted with the CAC public key.
    pub wrapped_key: String,
}

/// Where the private key of a certificate wrapper is expected to be.
#[derive(Debug, Clone, PartialEq, Eq)]
pub enum CertificateBackend {
    Cac { slot: String },
    Pfx { suggested_filename: Option<String> },
}

/// The vault key encrypted under an X.509 certificate's public key.
#[derive(Debug, Clone, PartialEq, Eq)]
pub struct CertificateKeyWrapper {
    pub backend: CertificateBackend,
    pub identity: CertificateIdentity,
    pub algorithm: KeyWrapAlgorithm,
    /// Base64 wrapped vault key.
    pub wrapped_key: String,
}

#[derive(Debug, Clone, PartialEq, Eq)]
pub struct KdfParameters {
    pub algorithm: String,
    pub memory_kib: u32,
    pub iterations: u32,
    pub parallelism: u32,
    pub salt: String,
}

#[derive(Debug, Clone, PartialEq, Eq)]
pub struct CipherPayload {
    pub algorithm: String,
    pub nonce: String,
    pub ciphertext: String,
}

#[derive(Debug, PartialEq, Eq)]
pub struct VaultSettings {
    pub clipboard_clear_seconds: u64,
}

/// The decrypted contents of a vault.
#[derive(Debug, PartialEq, Eq)]
pub struct VaultPayload {
    pub settings: VaultSettings,
    pub entries: Vec<VaultEntry>,
}

/// One credential.
#[derive(Debug, PartialEq, Eq)]
pub struct VaultEntry {
    /// The entry's UUID, as its 16 bytes.
    pub id: [u8; 16],
    pub domain: String,
    pub username: String,
    pub hotkey: String,
    pub secret: String,
    /// Expiration date in YYYY-MM-DD form.
    pub expires_on: Option<String>,
}

/// The mathematical content of an entry.
pub struct EntryView {
    pub id: Seq<u8>,
    pub domain: Seq<char>,
    pub username: Seq<char>,
    pub hotkey: Seq<char>,
    pub secret: Seq<char>,
    pub expires_on: Option<Seq<char>>,
}

/// The mathematical content of a payload.
pub struct PayloadView {
    pub clipboard_clear_seconds: u64,
    pub entries: Seq<EntryView>,
}

pub open spec fn option_text(value: Option<String>) -> Option<Seq<char>> {
    match value {
        Some(text) => Some(text@),
        None => None,
    }
}

impl View for VaultEntry {
    type V = EntryView;

    open spec fn view(&self) -> EntryView {
        EntryView {
            id: self.id@,
            domain: self.domain@,
            username: self.username@,
            hotkey: self.hotkey@,
            secret: self.secret@,
            expires_on: option_text(self.expires_on),
        }
    }
}

/// The views of a list of entries.
pub open spec fn entry_views(entries: Seq<VaultEntry>) -> Seq<EntryView> {
    entries.map_values(|entry: VaultEntry| entry@)
}

impl View for VaultPayload {
    type V = PayloadView;

    open spec fn view(&self) -> PayloadView {
        PayloadView {
            clipboard_clear_seconds: self.settings.clipboard_clear_seconds,
            entries: entry_views(self.entries@),
        }
    }
}

impl Clone for VaultEntry {
    fn clone(&self) -> (copy: Self)
        ensures
            copy@ == self@,
    {
        let expires_on = match &self.expires_on {
            Some(date) => Some(date.clone()),
            None => None,
        };
        VaultEntry {
            id: self.id,
            domain: self.domain.clone(),
            username: self.username.clone(),
            hotkey: self.hotkey.clone(),
            secret: self.secret.clone(),
            expires_on,
        }
    }
}

impl Clone for VaultSettings {
    fn clone(&self) -> (copy: Self)
        ensures
            copy == *self,
    {
        VaultSettings { clipboard_clear_seconds: self.clipboard_clear_seconds }
    }
}

impl Default for VaultSettings {
    fn default() -> (settings: Self)
        ensures
            settings.clipboard_clear_seconds == DEFAULT_CLIPBOARD_CLEAR_SECONDS,
    {
        VaultSettings { clipboard_clear_seconds: DEFAULT_CLIPBOARD_CLEAR_SECONDS }
    }
}

impl Default for VaultPayload {
    /// An empty vault with the default settings.
    fn default() -> (payload: Self)
        ensures
            payload@.clipboard_clear_seconds == DEFAULT_CLIPBOARD_CLEAR_SECONDS,
            payload@.entries.len() == 0,
    {
        VaultPayload { settings: VaultSettings::default(), entries: Vec::new() }
    }
}

/// A copy of a KDF description.
pub fn copy_kdf(kdf: &KdfParameters) -> (copy: KdfParameters)
    ensures
        copy == *kdf,
{
    KdfParameters {
        algorithm: kdf.algorithm.clone(),
        memory_kib: kdf.memory_kib,
        iterations: kdf.iterations,
        parallelism: kdf.parallelism,
        salt: kdf.salt.clone(),
    }
}

/// A copy of a cipher payload.
pub fn copy_cipher(cipher: &CipherPayload) -> (copy: CipherPayload)
    ensures
        copy == *cipher,
{
    CipherPayload {
        algorithm: cipher.algorithm.clone(),
        nonce: cipher.nonce.clone(),
        ciphertext: cipher.ciphertext.clone(),
    }
}

/// A copy of a password wrapper.
pub fn copy_password_wrapper(wrapper: &PasswordKeyWrapper) -> (copy: PasswordKeyWrapper)
    ensures
        copy == *wrapper,
{
    PasswordKeyWrapper { kdf: copy_kdf(&wrapper.kdf), cipher: copy_cipher(&wrapper.cipher) }
}

/// A copy of a certificate identity.
pub fn copy_identity(identity: &CertificateIdentity) -> (copy: CertificateIdentity)
    ensures
        copy == *identity,
{
    CertificateIdentity {
        sha256_fingerprint: identity.sha256_fingerprint.clone(),
        subject: identity.subject.clone(),
        issuer: identity.issuer.clone(),
        serial_number: identity.serial_number.clone(),
        not_before: identity.not_before.clone(),
        not_after: identity.not_after.clone(),
    }
}

/// A copy of a certificate backend.
pub fn copy_backend(backend: &CertificateBackend) -> (copy: CertificateBackend)
    ensures
        copy == *backend,
{
    match backend {
        CertificateBackend::Cac { slot } => CertificateBackend::Cac { slot: slot.clone() },
        CertificateBackend::Pfx { suggested_filename } => CertificateBackend::Pfx {
            suggested_filename: match suggested_filename {
                Some(name) => Some(name.clone()),
                None => None,
            },
        },
    }
}

/// A copy of an unlock method with all its wrappers.
pub fn copy_unlock(unlock: &VaultUnlockMethod) -> (copy: VaultUnlockMethod)
    ensures
        copy == *unlock,
{
    match unlock {
        VaultUnlockMethod::Password { wrapper } => VaultUnlockMethod::Password {
            wrapper: copy_password_wrapper(wrapper),
        },
        VaultUnlockMethod::Cac { cac_wrapper, backup_wrapper } => VaultUnlockMethod::Cac {
            cac_wrapper: CacKeyWrapper {
                slot: cac_wrapper.slot.clone(),
                certificate_sha256: cac_wrapper.certificate_sha256.clone(),
                algorithm: cac_wrapper.algorithm.clone(),
                wrapped_key: cac_wrapper.wrapped_key.clone(),
            },
            backup_wrapper: copy_password_wrapper(backup_wrapper),
        },
        VaultUnlockMethod::Certificate { certificate_wrapper, backup_wrapper } => {
            VaultUnlockMethod::Certificate {
                certificate_wrapper: CertificateKeyWrapper {
                    backend: copy_backend(&certificate_wrapper.backend),
                    identity: copy_identity(&certificate_wrapper.identity),
                    algorithm: certificate_wrapper.algorithm,
                    wrapped_key: certificate_wrapper.wrapped_key.clone(),
                },
                backup_wrapper: copy_password_wrapper(backup_wrapper),
            }
        },
    }
}

/// Copies a list of entries.
pub fn clone_entries(entries: &Vec<VaultEntry>) -> (copy: Vec<VaultEntry>)
    ensures
        entry_views(copy@) == entry_views(entries@),
{
    let mut copy: Vec<VaultEntry> = Vec::new();
    let mut index: usize = 0;
    while index < entries.len()
        invariant
            index <= entries@.len(),
            copy@.len() == index,
            forall|i: int| 0 <= i < index ==> #[trigger] copy@[i]@ == entries@[i]@,
        decreases entries@.len() - index,
    {
        copy.push(entries[index].clone());
        index = index + 1;
    }
    assert(entry_views(copy@) =~= entry_views(entries@));
    copy
}

impl Clone for VaultPayload {
    fn clone(&self) -> (copy: Self)
        ensures
            copy@ == self@,
    {
        VaultPayload { settings: self.settings.clone(), entries: clone_entries(&self.entries) }
    }
}

/// Whether a validation result reports exactly the expected problem.
pub open spec fn reports(result: Result<(), String>, problem: Option<Seq<char>>) -> bool {
    match problem {
        Some(message) => (result matches Err(error) && error@ == message),
        None => result is Ok,
    }
}

/// The first problem with KDF parameters, as a message.
pub open spec fn kdf_problem(kdf: KdfParameters, context: Seq<char>) -> Option<Seq<char>> {
    if kdf.algorithm@ != KDF_ALGORITHM@ {
        Some("unsupported "@ + context + " algorithm '"@ + kdf.algorithm@ + "'"@)
    } else if kdf.memory_kib == 0 {
        Some(context + " memory_kib must be greater than zero"@)
    } else if kdf.iterations == 0 {
        Some(context + " iterations must be greater than zero"@)
    } else if kdf.parallelism == 0 {
        Some(context + " parallelism must be greater than zero"@)
    } else if kdf.salt@.len() == 0 {
        Some(context + " salt is missing"@)
    } else {
        None
    }
}

/// The first problem with a cipher payload, as a message.
pub open spec fn cipher_problem(cipher: CipherPayload, context: Seq<char>) -> Option<Seq<char>> {
    if cipher.algorithm@ != CIPHER_ALGORITHM@ {
        Some("unsupported "@ + context + " algorithm '"@ + cipher.algorithm@ + "'"@)
    } else if cipher.nonce@.len() == 0 {
        Some(context + " nonce is missing"@)
    } else if cipher.ciphertext@.len() == 0 {
        Some(context + " ciphertext is missing"@)
    } else {
        None
    }
}

pub open spec fn password_wrapper_problem(wrapper: PasswordKeyWrapper, context: Seq<char>) -> Option<
    Seq<char>,
> {
    match kdf_problem(wrapper.kdf, context + " KDF"@) {
        Some(message) => Some(message),
        None => cipher_problem(wrapper.cipher, context + " cipher"@),
    }
}

pub open spec fn wrong_slot_message(slot: Seq<char>) -> Seq<char> {
    "unsupported CAC slot '"@ + slot + "'; expected "@ + CAC_KEY_MANAGEMENT_SLOT@
}

pub open spec fn cac_wrapper_problem(wrapper: CacKeyWrapper) -> Option<Seq<char>> {
    if !eq_ascii_ci(wrapper.slot@, CAC_KEY_MANAGEMENT_SLOT@) {
        Some(wrong_slot_message(wrapper.slot@))
    } else if is_blank_text(wrapper.certificate_sha256@) {
        Some("CAC certificate SHA-256 fingerprint is missing"@)
    } else if wrapper.algorithm@ != CAC_WRAP_ALGORITHM_RSA_OAEP_SHA256@ {
        Some("unsupported CAC wrapping algorithm '"@ + wrapper.algorithm@ + "'"@)
    } else if is_blank_text(wrapper.wrapped_key@) {
        Some("CAC-wrapped vault key is missing"@)
    } else {
        None
    }
}

pub open spec fn backend_problem(backend: CertificateBackend) -> Option<Seq<char>> {
    match backend {
        CertificateBackend::Cac { slot } => {
            if !eq_ascii_ci(slot@, CAC_KEY_MANAGEMENT_SLOT@) {
                Some(wrong_slot_message(slot@))
            } else {
                None
            }
        },
        CertificateBackend::Pfx { suggested_filename } => {
            if suggested_filename matches Some(name) && is_blank_text(name@) {
                Some("PFX suggested filename cannot be empty when provided"@)
            } else {
                None
            }
        },
    }
}

pub open spec fn certificate_wrapper_problem(wrapper: CertificateKeyWrapper) -> Option<Seq<char>> {
    if backend_problem(wrapper.backend) is Some {
        backend_problem(wrapper.backend)
    } else if is_blank_text(wrapper.identity.sha256_fingerprint@) {
        Some("certificate SHA-256 fingerprint is missing"@)
    } else if is_blank_text(wrapper.identity.subject@) {
        Some("certificate subject is missing"@)
    } else if is_blank_text(wrapper.identity.issuer@) {
        Some("certificate issuer is missing"@)
    } else if is_blank_text(wrapper.identity.serial_number@) {
        Some("certificate serial number is missing"@)
    } else if is_blank_text(wrapper.wrapped_key@) {
        Some("certificate-wrapped vault key is missing"@)
    } else {
        None
    }
}

pub open spec fn unlock_problem(unlock: VaultUnlockMethod) -> Option<Seq<char>> {
    match unlock {
        VaultUnlockMethod::Password { wrapper } => password_wrapper_problem(
            wrapper,
            "password wrapper"@,
        ),
        VaultUnlockMethod::Cac { cac_wrapper, backup_wrapper } => {
            if cac_wrapper_problem(cac_wrapper) is Some {
                cac_wrapper_problem(cac_wrapper)
            } else {
                password_wrapper_problem(backup_wrapper, "CAC backup wrapper"@)
            }
        },
        VaultUnlockMethod::Certificate { certificate_wrapper, backup_wrapper } => {
            if certificate_wrapper_problem(certificate_wrapper) is Some {
                certificate_wrapper_problem(certificate_wrapper)
            } else {
                password_wrapper_problem(backup_wrapper, "certificate backup wrapper"@)
            }
        },
    }
}

pub open spec fn v1_problem(envelope: VaultEnvelopeV1) -> Option<Seq<char>> {
    if envelope.version != VAULT_FORMAT_VERSION_V1 {
        Some(
            "invalid version-1 vault format value "@ + decimal(envelope.version as nat)
                + "; expected 1"@,
        )
    } else if kdf_problem(envelope.kdf, "vault KDF"@) is Some {
        kdf_problem(envelope.kdf, "vault KDF"@)
    } else {
        cipher_problem(envelope.cipher, "vault cipher"@)
    }
}

pub open spec fn v2_problem(envelope: VaultEnvelopeV2) -> Option<Seq<char>> {
    if envelope.version != VAULT_FORMAT_VERSION_V2 {
        Some(
            "invalid version-2 vault format value "@ + decimal(envelope.version as nat)
                + "; expected 2"@,
        )
    } else if cipher_problem(envelope.cipher, "vault payload cipher"@) is Some {
        cipher_problem(envelope.cipher, "vault payload cipher"@)
    } else {
        unlock_problem(envelope.unlock)
    }
}

pub open spec fn envelope_problem(envelope: VaultEnvelope) -> Option<Seq<char>> {
    match envelope {
        VaultEnvelope::V1(v1) => v1_problem(v1),
        VaultEnvelope::V2(v2) => v2_problem(v2),
    }
}

pub open spec fn settings_problem(settings: VaultSettings) -> Option<Seq<char>> {
    if !(MIN_CLIPBOARD_CLEAR_SECONDS <= settings.clipboard_clear_seconds
        <= MAX_CLIPBOARD_CLEAR_SECONDS) {
        Some("clipboard clear timeout must be between 1 and 86400 seconds"@)
    } else {
        None
    }
}

impl VaultEnvelope {
    pub open spec fn spec_version(&self) -> u32 {
        match self {
            VaultEnvelope::V1(envelope) => envelope.version,
            VaultEnvelope::V2(envelope) => envelope.version,
        }
    }

    pub fn version(&self) -> (version: u32)
        ensures
            version == self.spec_version(),
    {
        match self {
            VaultEnvelope::V1(envelope) => envelope.version,
            VaultEnvelope::V2(envelope) => envelope.version,
        }
    }

    pub fn validate(&self) -> (result: Result<(), String>)
        ensures
            reports(result, envelope_problem(*self)),
    {
        match self {
            VaultEnvelope::V1(envelope) => envelope.validate(),
            VaultEnvelope::V2(envelope) => envelope.validate(),
        }
    }
}

impl VaultEnvelopeV1 {
    pub fn validate(&self) -> (result: Result<(), String>)
        ensures
            reports(result, v1_problem(*self)),
    {
        if self.version != VAULT_FORMAT_VERSION_V1 {
            let mut message = String::from_str("invalid version-1 vault format value ");
            let number = decimal_string(self.version as u64);
            message.append(number.as_str());
            message.append("; expected 1");
            return Err(message);
        }
        match self.kdf.validate("vault KDF") {
            Ok(()) => {},
            Err(error) => {
                return Err(error);
            },
        }
        self.cipher.validate("vault cipher")
    }
}

impl VaultEnvelopeV2 {
    pub fn validate(&self) -> (result: Result<(), String>)
        ensures
            reports(result, v2_problem(*self)),
    {
        if self.version != VAULT_FORMAT_VERSION_V2 {
            let mut message = String::from_str("invalid version-2 vault format value ");
            let number = decimal_string(self.version as u64);
            message.append(number.as_str());
            message.append("; expected 2");
            return Err(message);
        }
        match self.cipher.validate("vault payload cipher") {
            Ok(()) => {},
            Err(error) => {
                return Err(error);
            },
        }
        self.unlock.validate()
    }
}

impl VaultUnlockMethod {
    pub fn validate(&self) -> (result: Result<(), String>)
        ensures
            reports(result, unlock_problem(*self)),
    {
        match self {
            VaultUnlockMethod::Password { wrapper } => wrapper.validate("password wrapper"),
            VaultUnlockMethod::Cac { cac_wrapper, backup_wrapper } => {
                match cac_wrapper.validate() {
                    Ok(()) => {},
                    Err(error) => {
                        return Err(error);
                    },
                }
                backup_wrapper.validate("CAC backup wrapper")
            },
            VaultUnlockMethod::Certificate { certificate_wrapper, backup_wrapper } => {
                match certificate_wrapper.validate() {
                    Ok(()) => {},
                    Err(error) => {
                        return Err(error);
                    },
                }
                backup_wrapper.validate("certificate backup wrapper")
            },
        }
    }
}

impl PasswordKeyWrapper {
    pub fn validate(&self, context: &str) -> (result: Result<(), String>)
        ensures
            reports(result, password_wrapper_problem(*self, context@)),
    {
        let kdf_context = join2(context, " KDF");
        assert(kdf_context@ =~= context@ + " KDF"@);
        match self.kdf.validate(kdf_context.as_str()) {
            Ok(()) => {},
            Err(error) => {
                return Err(error);
            },
        }
        let cipher_context = join2(context, " cipher");
        assert(cipher_context@ =~= context@ + " cipher"@);
        self.cipher.validate(cipher_context.as_str())
    }
}

fn wrong_slot(slot: &str) -> (message: String)
    ensures
        message@ == wrong_slot_message(slot@),
{
    let mut message = join3("unsupported CAC slot '", slot, "'; expected ");
    message.append(CAC_KEY_MANAGEMENT_SLOT);
    message
}

impl CacKeyWrapper {
    pub fn validate(&self) -> (result: Result<(), String>)
        ensures
            reports(result, cac_wrapper_problem(*self)),
    {
        if !eq_ignore_ascii_case(self.slot.as_str(), CAC_KEY_MANAGEMENT_SLOT) {
            return Err(wrong_slot(self.slot.as_str()));
        }
        if is_blank(self.certificate_sha256.as_str()) {
            return Err(String::from_str("CAC certificate SHA-256 fingerprint is missing"));
        }
        if !str_eq(self.algorithm.as_str(), CAC_WRAP_ALGORITHM_RSA_OAEP_SHA256) {
            return Err(
                join3("unsupported CAC wrapping algorithm '", self.algorithm.as_str(), "'"),
            );
        }
        if is_blank(self.wrapped_key.as_str()) {
            return Err(String::from_str("CAC-wrapped vault key is missing"));
        }
        Ok(())
    }
}

impl CertificateBackend {
    pub fn validate(&self) -> (result: Result<(), String>)
        ensures
            reports(result, backend_problem(*self)),
    {
        match self {
            CertificateBackend::Cac { slot } => {
                if !eq_ignore_ascii_case(slot.as_str(), CAC_KEY_MANAGEMENT_SLOT) {
                    return Err(wrong_slot(slot.as_str()));
                }
                Ok(())
            },
            CertificateBackend::Pfx { suggested_filename } => {
                match suggested_filename {
                    Some(name) => {
                        if is_blank(name.as_str()) {
                            return Err(
                                String::from_str(
                                    "PFX suggested filename cannot be empty when provided",
                                ),
                            );
                        }
                    },
                    None => {},
                }
                Ok(())
            },
        }
    }
}

impl CertificateKeyWrapper {
    pub fn validate(&self) -> (result: Result<(), String>)
        ensures
            reports(result, certificate_wrapper_problem(*self)),
    {
        match self.backend.validate() {
            Ok(()) => {},
            Err(error) => {
                return Err(error);
            },
        }
        if is_blank(self.identity.sha256_fingerprint.as_str()) {
            return Err(String::from_str("certificate SHA-256 fingerprint is missing"));
        }
        if is_blank(self.identity.subject.as_str()) {
            return Err(String::from_str("certificate subject is missing"));
        }
        if is_blank(self.identity.issuer.as_str()) {
            return Err(String::from_str("certificate issuer is missing"));
        }
        if is_blank(self.identity.serial_number.as_str()) {
            return Err(String::from_str("certificate serial number is missing"));
        }
        if is_blank(self.wrapped_key.as_str()) {
            return Err(String::from_str("certificate-wrapped vault key is missing"));
        }
        Ok(())
    }
}

impl KdfParameters {
    pub fn validate(&self, context: &str) -> (result: Result<(), String>)
        ensures
            reports(result, kdf_problem(*self, context@)),
    {
        if !str_eq(self.algorithm.as_str(), KDF_ALGORITHM) {
            let mut message = join3("unsupported ", context, " algorithm '");
            message.append(self.algorithm.as_str());
            message.append("'");
            return Err(message);
        }
        if self.memory_kib == 0 {
            return Err(join2(context, " memory_kib must be greater than zero"));
        }
        if self.iterations == 0 {
            return Err(join2(context, " iterations must be greater than zero"));
        }
        if self.parallelism == 0 {
            return Err(join2(context, " parallelism must be greater than zero"));
        }
        if self.salt.as_str().is_empty() {
            return Err(join2(context, " salt is missing"));
        }
        Ok(())
    }
}

impl CipherPayload {
    pub fn validate(&self, context: &str) -> (result: Result<(), String>)
        ensures
            reports(result, cipher_problem(*self, context@)),
    {
        if !str_eq(self.algorithm.as_str(), CIPHER_ALGORITHM) {
            let mut message = join3("unsupported ", context, " algorithm '");
            message.append(self.algorithm.as_str());
            message.append("'");
            return Err(message);
        }
        if self.nonce.as_str().is_empty() {
            return Err(join2(context, " nonce is missing"));
        }
        if self.ciphertext.as_str().is_empty() {
            return Err(join2(context, " ciphertext is missing"));
        }
        Ok(())
    }
}

impl VaultSettings {
    pub fn validate(&self) -> (result: Result<(), String>)
        ensures
            reports(result, settings_problem(*self)),
    {
        if !(MIN_CLIPBOARD_CLEAR_SECONDS <= self.clipboard_clear_seconds
            && self.clipboard_clear_seconds <= MAX_CLIPBOARD_CLEAR_SECONDS) {
            return Err(
                String::from_str("clipboard clear timeout must be between 1 and 86400 seconds"),
            );
        }
        Ok(())
    }
}

impl VaultPayload {
    /// Stores a new clipboard timeout in the payload's settings when it is
    /// in the accepted range; otherwise the payload is left as it was.
    pub fn set_clipboard_clear_seconds(&mut self, seconds: u64) -> (result: Result<(), String>)
        ensures
            match settings_problem(VaultSettings { clipboard_clear_seconds: seconds }) {
                Some(problem) => result matches Err(message) && message@ == problem
                    && final(self)@ == old(self)@,
                None => result is Ok && final(self)@ == (PayloadView {
                    clipboard_clear_seconds: seconds,
                    ..old(self)@
                }),
            },
    {
        let settings = VaultSettings { clipboard_clear_seconds: seconds };
        match settings.validate() {
            Ok(()) => {},
            Err(error) => {
                return Err(error);
            },
        }
        self.settings = settings;
        Ok(())
    }
}

/// Whether an entry belongs to the account `domain\username`, comparing
/// both parts without regard to ASCII case.
pub open spec fn is_account(entry: EntryView, domain: Seq<char>, username: Seq<char>) -> bool {
    eq_ascii_ci(entry.domain, domain) && eq_ascii_ci(entry.username, username)
}

impl VaultPayload {
    pub fn validate(&self) -> (result: Result<(), String>)
        ensures
            reports(result, settings_problem(self.settings)),
    {
        self.settings.validate()
    }

    /// The first entry whose user name is exactly `name`.
    pub fn find_entry(&self, name: &str) -> (found: Option<&VaultEntry>)
        ensures
            match found {
                Some(entry) => exists|i: int|
                    0 <= i < self.entries@.len() && #[trigger] self.entries@[i] == *entry
                        && entry.username@ == name@ && forall|j: int|
                        0 <= j < i ==> self.entries@[j].username@ != name@,
                None => forall|i: int|
                    0 <= i < self.entries@.len() ==> #[trigger] self.entries@[i].username@
                        != name@,
            },
    {
        let mut index: usize = 0;
        while index < self.entries.len()
            invariant
                index <= self.entries@.len(),
                forall|j: int| 0 <= j < index ==> self.entries@[j].username@ != name@,
            decreases self.entries@.len() - index,
        {
            if str_eq(self.entries[index].username.as_str(), name) {
                return Some(&self.entries[index]);
            }
            index = index + 1;
        }
        None
    }

    /// Whether some entry's user name is exactly `name`.
    pub fn contains_name(&self, name: &str) -> (found: bool)
        ensures
            found == exists|i: int|
                0 <= i < self.entries@.len() && #[trigger] self.entries@[i].username@ == name@,
    {
        self.find_entry(name).is_some()
    }

    /// Whether some entry belongs to the account `domain\username`.
    pub fn contains_account(&self, domain: &str, username: &str) -> (found: bool)
        ensures
            found == exists|i: int|
                0 <= i < self.entries@.len() && is_account(
                    #[trigger] self.entries@[i]@,
                    domain@,
                    username@,
                ),
    {
        let mut index: usize = 0;
        while index < self.entries.len()
            invariant
                index <= self.entries@.len(),
                forall|j: int|
                    0 <= j < index ==> !is_account(#[trigger] self.entries@[j]@, domain@, username@),
            decreases self.entries@.len() - index,
        {
            let entry = &self.entries[index];
            if eq_ignore_ascii_case(entry.domain.as_str(), domain) && eq_ignore_ascii_case(
                entry.username.as_str(),
                username,
            ) {
                assert(is_account(self.entries@[index as int]@, domain@, username@));
                return true;
            }
            index = index + 1;
        }
        false
    }
}

} // verus!
