//! Vault operations on whole vault files: creating, opening, saving and
//! recovering them. The caller reads and writes the files; these functions
//! decide what is written and what is refused.
use vstd::prelude::*;

use vstd::utf8::encode_utf8;

use crate::text::join3;
use crate::vault::crypto::{
    decrypt_payload, decrypt_payload_with_key, decrypted_plaintext, empty_password_message,
    encrypt_payload, envelope_callable, gives, argon2_callable, password_vault_holding, payload_under_key,
    unwrap_key_with_password, unwrapped_key, xchacha_accepts,
};
use crate::vault::format::{
    KdfParameters, VaultEnvelope, VaultUnlockMethod, CURRENT_VAULT_FORMAT_VERSION,
};

verus! {

pub open spec fn vault_exists_message(path: Seq<char>) -> Seq<char> {
    "vault already exists at '"@ + path + "'"@
}

/// Creates a password vault holding the serialized empty payload, unless a
/// vault already exists at `path`.
pub fn initialize_password_vault(
    path: &str,
    vault_exists: bool,
    empty_payload: &[u8],
    master_password: &str,
) -> (result: Result<VaultEnvelope, String>)
    ensures
        vault_exists ==> (result matches Err(message) && message@ == vault_exists_message(path@)),
        !vault_exists && master_password@.len() == 0 ==> (result matches Err(message) && message@
            == empty_password_message("master password"@)),
        !vault_exists && master_password@.len() > 0 && encode_utf8(master_password@).len()
            <= 0xFFFF_FFFF && xchacha_accepts(empty_payload@.len()) ==> result is Ok,
        result matches Ok(envelope) ==> password_vault_holding(envelope, master_password@, empty_payload@),
{
    if vault_exists {
        return Err(join3("vault already exists at '", path, "'"));
    }
    encrypt_payload(empty_payload, master_password)
}

pub open spec fn certificate_vault_message() -> Seq<char> {
    "this vault uses CAC unlock; use the CAC unlock or backup recovery command"@
}

/// Whether the vault opens with a master password: version 1, or version 2
/// with password unlock.
pub open spec fn password_protected(envelope: VaultEnvelope) -> bool {
    match envelope {
        VaultEnvelope::V1(_) => true,
        VaultEnvelope::V2(version_2) => version_2.unlock is Password,
    }
}

/// The serialized payload of a password vault. Certificate and CAC vaults
/// are refused.
pub fn load_password_vault(envelope: &VaultEnvelope, master_password: &str) -> (result: Result<
    Vec<u8>,
    String,
>)
    requires
        envelope_callable(*envelope),
    ensures
        !password_protected(*envelope) ==> (result matches Err(message) && message@
            == certificate_vault_message()),
        password_protected(*envelope) ==> match decrypted_plaintext(*envelope, master_password@) {
            Ok(plaintext) => result matches Ok(bytes) && bytes@ == plaintext,
            Err(problem) => result matches Err(message) && message@ == problem,
        },
{
    match envelope {
        VaultEnvelope::V1(_) => decrypt_payload(envelope, master_password),
        VaultEnvelope::V2(version_2) => match &version_2.unlock {
            VaultUnlockMethod::Password { .. } => decrypt_payload(envelope, master_password),
            _ => Err(
                String::from_str(
                    "this vault uses CAC unlock; use the CAC unlock or backup recovery command",
                ),
            ),
        },
    }
}

pub open spec fn password_save_refusal() -> Seq<char> {
    "cannot save a certificate-protected vault through the password-only save path"@
}

/// What saving a password vault may give: a certificate or CAC vault is
/// refused, then an empty password; a usable password and payload are
/// saved; what is saved opens under the password to the payload.
pub open spec fn password_save_result(
    existing: VaultEnvelope,
    plaintext: Seq<u8>,
    master_password: Seq<char>,
    result: Result<VaultEnvelope, String>,
) -> bool {
    &&& !password_protected(existing) ==> (result matches Err(message) && message@
        == password_save_refusal())
    &&& password_protected(existing) && master_password.len() == 0 ==> (result matches Err(message)
        && message@ == empty_password_message("master password"@))
    &&& password_protected(existing) && master_password.len() > 0 && encode_utf8(
        master_password,
    ).len() <= 0xFFFF_FFFF && xchacha_accepts(plaintext.len()) ==> result is Ok
    &&& result matches Ok(envelope) ==> password_vault_holding(envelope, master_password, plaintext)
}

/// A password vault made by `initialize_password_vault`, `save_vault`,
/// `save_password_vault` or `encrypt_payload` can be handed to
/// `load_password_vault` and `decrypt_payload`, and opens under its
/// password to the payload it was made with.
pub proof fn lemma_password_vault_round_trip(
    envelope: VaultEnvelope,
    password: Seq<char>,
    plaintext: Seq<u8>,
)
    requires
        password_vault_holding(envelope, password, plaintext),
    ensures
        envelope_callable(envelope),
        password_protected(envelope),
        decrypted_plaintext(envelope, password) == Ok::<Seq<u8>, Seq<char>>(plaintext),
{
}

/// The new vault file for a password vault holding `plaintext`: a fresh
/// vault key and password wrapper each time. A version-1 vault is thus
/// migrated to version 2; a certificate or CAC vault is refused.
pub fn save_password_vault(existing: &VaultEnvelope, plaintext: &[u8], master_password: &str) -> (result:
    Result<VaultEnvelope, String>)
    ensures
        password_save_result(*existing, plaintext@, master_password@, result),
{
    match existing {
        VaultEnvelope::V1(_) => {},
        VaultEnvelope::V2(version_2) => {
            match &version_2.unlock {
                VaultUnlockMethod::Password { .. } => {},
                _ => {
                    return Err(
                        String::from_str(
                            "cannot save a certificate-protected vault through the password-only save path",
                        ),
                    );
                },
            }
        },
    }
    encrypt_payload(plaintext, master_password)
}

/// The same as `save_password_vault`, under the name the command line used
/// first: both promise `password_save_result`.
pub fn save_vault(existing: &VaultEnvelope, plaintext: &[u8], master_password: &str) -> (result:
    Result<VaultEnvelope, String>)
    ensures
        password_save_result(*existing, plaintext@, master_password@, result),
{
    save_password_vault(existing, plaintext, master_password)
}

/// Argon2 can be asked for the backup wrapper of a version-2 certificate or
/// CAC vault; other vaults have none, and are refused without it.
pub open spec fn backup_callable(envelope: VaultEnvelope) -> bool {
    match envelope {
        VaultEnvelope::V1(_) => true,
        VaultEnvelope::V2(version_2) => match version_2.unlock {
            VaultUnlockMethod::Password { .. } => true,
            VaultUnlockMethod::Cac { backup_wrapper, .. } => argon2_callable(backup_wrapper.kdf),
            VaultUnlockMethod::Certificate { backup_wrapper, .. } => argon2_callable(
                backup_wrapper.kdf,
            ),
        },
    }
}

fn kdf_callable(kdf: &KdfParameters) -> (callable: bool)
    ensures
        callable == argon2_callable(*kdf),
{
    kdf.parallelism <= 0x1FFF_FFFF
}

/// Whether Argon2 can be asked for every password wrapper of a vault, as
/// opening or saving it through its password needs.
pub fn check_envelope_callable(envelope: &VaultEnvelope) -> (callable: bool)
    ensures
        callable == envelope_callable(*envelope),
{
    match envelope {
        VaultEnvelope::V1(version_1) => kdf_callable(&version_1.kdf),
        VaultEnvelope::V2(version_2) => match &version_2.unlock {
            VaultUnlockMethod::Password { wrapper } => kdf_callable(&wrapper.kdf),
            VaultUnlockMethod::Cac { backup_wrapper, .. } => kdf_callable(&backup_wrapper.kdf),
            VaultUnlockMethod::Certificate { backup_wrapper, .. } => kdf_callable(
                &backup_wrapper.kdf,
            ),
        },
    }
}

/// Whether Argon2 can be asked for the backup wrapper of a vault, as
/// recovery and certificate rotation need.
pub fn check_backup_callable(envelope: &VaultEnvelope) -> (callable: bool)
    ensures
        callable == backup_callable(*envelope),
{
    match envelope {
        VaultEnvelope::V1(_) => true,
        VaultEnvelope::V2(version_2) => match &version_2.unlock {
            VaultUnlockMethod::Password { .. } => true,
            VaultUnlockMethod::Cac { backup_wrapper, .. } => kdf_callable(&backup_wrapper.kdf),
            VaultUnlockMethod::Certificate { backup_wrapper, .. } => kdf_callable(
                &backup_wrapper.kdf,
            ),
        },
    }
}

/// What opening a vault with its backup password gives: the serialized
/// payload, or why it cannot be had.
pub open spec fn recovered_plaintext(envelope: VaultEnvelope, backup_password: Seq<char>) -> Result<
    Seq<u8>,
    Seq<char>,
> {
    match envelope {
        VaultEnvelope::V1(_) => Err("version-1 vaults do not contain a backup-password wrapper"@),
        VaultEnvelope::V2(version_2) => match version_2.unlock {
            VaultUnlockMethod::Password { .. } => Err(
                "this vault uses normal password protection and does not require recovery"@,
            ),
            VaultUnlockMethod::Cac { backup_wrapper, .. } => match unwrapped_key(
                backup_wrapper,
                backup_password,
            ) {
                Err(problem) => Err(problem),
                Ok(key) => payload_under_key(version_2.cipher, key),
            },
            VaultUnlockMethod::Certificate { backup_wrapper, .. } => match unwrapped_key(
                backup_wrapper,
                backup_password,
            ) {
                Err(problem) => Err(problem),
                Ok(key) => payload_under_key(version_2.cipher, key),
            },
        },
    }
}

/// Opens a certificate or legacy CAC vault with its backup password: the
/// backup wrapper gives the same vault key the certificate would, and the
/// payload is decrypted without changing the vault.
pub fn recover_vault_with_backup_password(envelope: &VaultEnvelope, backup_password: &str) -> (result:
    Result<Vec<u8>, String>)
    requires
        backup_callable(*envelope),
    ensures
        match recovered_plaintext(*envelope, backup_password@) {
            Ok(plaintext) => result matches Ok(bytes) && bytes@ == plaintext,
            Err(problem) => result matches Err(message) && message@ == problem,
        },
{
    let version_2 = match envelope {
        VaultEnvelope::V1(_) => {
            return Err(String::from_str("version-1 vaults do not contain a backup-password wrapper"));
        },
        VaultEnvelope::V2(version_2) => version_2,
    };
    let backup_wrapper = match &version_2.unlock {
        VaultUnlockMethod::Password { .. } => {
            return Err(
                String::from_str(
                    "this vault uses normal password protection and does not require recovery",
                ),
            );
        },
        VaultUnlockMethod::Cac { backup_wrapper, .. } => backup_wrapper,
        VaultUnlockMethod::Certificate { backup_wrapper, .. } => backup_wrapper,
    };
    let key = match unwrap_key_with_password(backup_wrapper, backup_password) {
        Ok(key) => key,
        Err(error) => {
            return Err(error);
        },
    };
    decrypt_payload_with_key(&version_2.cipher, &key)
}

} // verus!
