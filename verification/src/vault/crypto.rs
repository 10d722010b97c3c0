//! Vault cryptography: Argon2id key derivation, XChaCha20-Poly1305
//! encryption, and the password wrapper that protects a random vault key.
//!
//! The payload is handled here as its serialized bytes.
use vstd::prelude::*;

use base64::Engine;
use chacha20poly1305::aead::{Aead, KeyInit};
use rand::RngCore;
use vstd::utf8::encode_utf8;

use crate::text::{decimal, decimal_string, join2, join3};
use crate::vault::format::{
    cipher_problem, envelope_problem, password_wrapper_problem, CipherPayload, KdfParameters,
    PasswordKeyWrapper, VaultEnvelope, VaultEnvelopeV1, VaultEnvelopeV2, VaultUnlockMethod,
    CIPHER_ALGORITHM, CURRENT_VAULT_FORMAT_VERSION, KDF_ALGORITHM, VAULT_FORMAT_VERSION_V1,
};

verus! {

pub const KEY_LENGTH: usize = 32;

pub const SALT_LENGTH: usize = 16;

pub const NONCE_LENGTH: usize = 24;

pub const DEFAULT_MEMORY_KIB: u32 = 65536;

pub const DEFAULT_ITERATIONS: u32 = 3;

pub const DEFAULT_PARALLELISM: u32 = 1;

// ---------------------------------------------------------------------------
// Outside functions
/// The Argon2id (version 0x13) key of 32 bytes for a password and salt.
pub uninterp spec fn argon2id_key(
    password: Seq<char>,
    salt: Seq<u8>,
    memory_kib: u32,
    iterations: u32,
    parallelism: u32,
) -> Seq<u8>;

/// XChaCha20-Poly1305 encryption of `plaintext` (ciphertext with its tag).
pub uninterp spec fn xchacha_seal(key: Seq<u8>, nonce: Seq<u8>, plaintext: Seq<u8>) -> Seq<u8>;

/// XChaCha20-Poly1305 decryption: `None` when the tag does not verify.
pub uninterp spec fn xchacha_open(key: Seq<u8>, nonce: Seq<u8>, ciphertext: Seq<u8>) -> Option<
    Seq<u8>,
>;

/// Base64 (standard alphabet, no padding) of `bytes`.
pub uninterp spec fn base64_unpadded(bytes: Seq<u8>) -> Seq<char>;

/// Decoding of standard unpadded base64; the error is the decoder's message.
pub uninterp spec fn base64_unpadded_decoded(text: Seq<char>) -> Result<Seq<u8>, Seq<char>>;

/// Why `argon2::Params::new` refuses the cost parameters, in the words of
/// argon2's `Error` display (output length 32).
pub open spec fn argon2_parameter_problem(
    memory_kib: u32,
    iterations: u32,
    parallelism: u32,
) -> Option<Seq<char>> {
    if memory_kib < 8 || memory_kib < parallelism * 8 {
        Some("memory cost is too small"@)
    } else if iterations < 1 {
        Some("time cost is too small"@)
    } else if parallelism < 1 {
        Some("not enough threads"@)
    } else if parallelism > 0xFF_FFFF {
        Some("too many threads"@)
    } else {
        None
    }
}

/// Why `Argon2::hash_password_into` refuses a password and salt.
pub open spec fn argon2_input_problem(password: Seq<char>, salt: Seq<u8>) -> Option<Seq<char>> {
    if encode_utf8(password).len() > 0xFFFF_FFFF {
        Some("password is too long"@)
    } else if salt.len() < 8 {
        Some("salt is too short"@)
    } else if salt.len() > 0xFFFF_FFFF {
        Some("salt is too long"@)
    } else {
        None
    }
}

/// Which Argon2 step refused its input, with argon2's message.
pub enum Argon2Failure {
    Parameters(String),
    Hashing(String),
}

/// `argon2::Params::new` with a 32-byte output, `Argon2::new` (Argon2id,
/// version 0x13) and `hash_password_into`. Each refusal is reported with
/// argon2's own message, as the source checks them; otherwise the 32-byte
/// key is the named Argon2id result. Argon2 allocates `memory_kib` KiB;
/// that the allocation succeeds is not stated.
#[verifier::external_body]
fn argon2id_hash(
    password: &str,
    salt: &[u8],
    memory_kib: u32,
    iterations: u32,
    parallelism: u32,
) -> (result: Result<[u8; 32], Argon2Failure>)
    requires
        parallelism <= 0x1FFF_FFFF,
    ensures
        match argon2_parameter_problem(memory_kib, iterations, parallelism) {
            Some(problem) => result matches Err(Argon2Failure::Parameters(message)) && message@
                == problem,
            None => match argon2_input_problem(password@, salt@) {
                Some(problem) => result matches Err(Argon2Failure::Hashing(message)) && message@
                    == problem,
                None => result matches Ok(key) && key@ == argon2id_key(
                    password@,
                    salt@,
                    memory_kib,
                    iterations,
                    parallelism,
                ),
            },
        },
{
    let params = match argon2::Params::new(memory_kib, iterations, parallelism, Some(32)) {
        Ok(params) => params,
        Err(error) => return Err(Argon2Failure::Parameters(error.to_string())),
    };
    let argon2 = argon2::Argon2::new(argon2::Algorithm::Argon2id, argon2::Version::V0x13, params);
    let mut key = [0u8; 32];
    match argon2.hash_password_into(password.as_bytes(), salt, &mut key) {
        Ok(()) => Ok(key),
        Err(error) => Err(Argon2Failure::Hashing(error.to_string())),
    }
}

/// Whether XChaCha20-Poly1305 accepts a message of this length: fewer than
/// `u32::MAX` 64-byte blocks.
pub open spec fn xchacha_accepts(length: nat) -> bool {
    length / 64 < 0xFFFF_FFFF
}

/// `XChaCha20Poly1305::encrypt` under a 32-byte key and 24-byte nonce. It
/// refuses a message of `u32::MAX` blocks or more; otherwise the result is
/// the named ciphertext, the message plus a 16-byte tag, which the same key
/// and nonce decrypt back to the message.
#[verifier::external_body]
fn xchacha_encrypt(key: &[u8], nonce: &[u8], plaintext: &[u8]) -> (ciphertext: Option<Vec<u8>>)
    requires
        key@.len() == 32,
        nonce@.len() == 24,
    ensures
        ciphertext is Some <==> xchacha_accepts(plaintext@.len()),
        ciphertext matches Some(sealed) ==> {
            &&& sealed@ == xchacha_seal(key@, nonce@, plaintext@)
            &&& sealed@.len() == plaintext@.len() + 16
            &&& xchacha_open(key@, nonce@, sealed@) == Some(plaintext@)
        },
{
    let cipher = chacha20poly1305::XChaCha20Poly1305::new_from_slice(key).ok()?;
    cipher.encrypt(chacha20poly1305::XNonce::from_slice(nonce), plaintext).ok()
}

/// `XChaCha20Poly1305::decrypt` under a 32-byte key and 24-byte nonce.
#[verifier::external_body]
fn xchacha_decrypt(key: &[u8], nonce: &[u8], ciphertext: &[u8]) -> (plaintext: Option<Vec<u8>>)
    requires
        key@.len() == 32,
        nonce@.len() == 24,
    ensures
        match xchacha_open(key@, nonce@, ciphertext@) {
            Some(opened) => plaintext matches Some(bytes) && bytes@ == opened,
            None => plaintext is None,
        },
{
    let cipher = chacha20poly1305::XChaCha20Poly1305::new_from_slice(key).ok()?;
    cipher.decrypt(chacha20poly1305::XNonce::from_slice(nonce), ciphertext).ok()
}

/// `STANDARD_NO_PAD.encode` (base64): the named text, `ceil(4n/3)`
/// characters long, which `STANDARD_NO_PAD.decode` turns back into `bytes`.
#[verifier::external_body]
pub(crate) fn encode_unpadded(bytes: &[u8]) -> (text: String)
    ensures
        text@ == base64_unpadded(bytes@),
        text@.len() == (4 * bytes@.len() + 2) / 3,
        gives(base64_unpadded_decoded(text@), bytes@),
{
    base64::engine::general_purpose::STANDARD_NO_PAD.encode(bytes)
}

/// `STANDARD_NO_PAD.decode` (base64), its error given as its message.
#[verifier::external_body]
fn decode_unpadded(text: &str) -> (result: Result<Vec<u8>, String>)
    ensures
        match base64_unpadded_decoded(text@) {
            Ok(bytes) => result matches Ok(decoded) && decoded@ == bytes,
            Err(problem) => result matches Err(message) && message@ == problem,
        },
{
    match base64::engine::general_purpose::STANDARD_NO_PAD.decode(text) {
        Ok(bytes) => Ok(bytes),
        Err(error) => Err(error.to_string()),
    }
}

/// Base64 (standard alphabet, with padding) of `bytes`.
pub uninterp spec fn base64_padded(bytes: Seq<u8>) -> Seq<char>;

/// Decoding of standard padded base64; the error is the decoder's message.
pub uninterp spec fn base64_padded_decoded(text: Seq<char>) -> Result<Seq<u8>, Seq<char>>;

/// `STANDARD.encode` (base64): the named text, `4 * ceil(n/3)` characters
/// long, which `STANDARD.decode` turns back into `bytes`.
#[verifier::external_body]
pub(crate) fn encode_padded(bytes: &[u8]) -> (text: String)
    ensures
        text@ == base64_padded(bytes@),
        text@.len() == 4 * ((bytes@.len() + 2) / 3),
        gives(base64_padded_decoded(text@), bytes@),
{
    base64::engine::general_purpose::STANDARD.encode(bytes)
}

/// `STANDARD.decode` (base64), its error given as its message.
#[verifier::external_body]
pub(crate) fn decode_padded(text: &str) -> (result: Result<Vec<u8>, String>)
    ensures
        match base64_padded_decoded(text@) {
            Ok(bytes) => result matches Ok(decoded) && decoded@ == bytes,
            Err(problem) => result matches Err(message) && message@ == problem,
        },
{
    match base64::engine::general_purpose::STANDARD.decode(text) {
        Ok(bytes) => Ok(bytes),
        Err(error) => Err(error.to_string()),
    }
}

/// `OsRng.fill_bytes` (rand) on a fresh 32-byte array: a random key. Only
/// its length is known.
#[verifier::external_body]
fn random_key() -> (key: [u8; 32]) {
    let mut key = [0u8; 32];
    rand::rngs::OsRng.fill_bytes(&mut key);
    key
}

/// `OsRng.fill_bytes` (rand) on `length` fresh bytes.
#[verifier::external_body]
fn random_bytes(length: usize) -> (bytes: Vec<u8>)
    ensures
        bytes@.len() == length,
{
    let mut bytes = vec![0u8; length];
    rand::rngs::OsRng.fill_bytes(&mut bytes);
    bytes
}

// ---------------------------------------------------------------------------
// What the vault operations compute
/// Argon2 can be asked for these parameters without overflow: `8 *
/// parallelism` fits in a `u32`.
pub open spec fn argon2_callable(kdf: KdfParameters) -> bool {
    kdf.parallelism <= 0x1FFF_FFFF
}

pub open spec fn empty_password_message(description: Seq<char>) -> Seq<char> {
    description + " cannot be empty"@
}

/// The bytes of a base64 field that must decode to exactly `length` bytes.
pub open spec fn exact_decoding(field: Seq<char>, encoded: Seq<char>, length: nat) -> Result<
    Seq<u8>,
    Seq<char>,
> {
    match base64_unpadded_decoded(encoded) {
        Err(problem) => Err("vault "@ + field + " is not valid base64: "@ + problem),
        Ok(bytes) => if bytes.len() == length {
            Ok(bytes)
        } else {
            Err(
                "vault "@ + field + " has invalid length "@ + decimal(bytes.len()) + "; expected "@
                    + decimal(length),
            )
        },
    }
}

/// `result` is the success `bytes`.
pub open spec fn gives(result: Result<Seq<u8>, Seq<char>>, bytes: Seq<u8>) -> bool {
    result == Ok::<Seq<u8>, Seq<char>>(bytes)
}

/// The key Argon2id derives, or why it could not.
pub open spec fn derived_key(
    password: Seq<char>,
    salt: Seq<u8>,
    memory_kib: u32,
    iterations: u32,
    parallelism: u32,
) -> Result<Seq<u8>, Seq<char>> {
    match argon2_parameter_problem(memory_kib, iterations, parallelism) {
        Some(problem) => Err("invalid Argon2 parameters: "@ + problem),
        None => match argon2_input_problem(password, salt) {
            Some(problem) => Err("failed to derive vault key: "@ + problem),
            None => Ok(argon2id_key(password, salt, memory_kib, iterations, parallelism)),
        },
    }
}

/// What a cipher payload decrypts to under `key`, or why it does not.
pub open spec fn opened_bytes(cipher: CipherPayload, key: Seq<u8>) -> Result<Seq<u8>, Seq<char>> {
    match cipher_problem(cipher, "cipher payload"@) {
        Some(problem) => Err(problem),
        None => match exact_decoding("nonce"@, cipher.nonce@, 24) {
            Err(problem) => Err(problem),
            Ok(nonce) => match base64_unpadded_decoded(cipher.ciphertext@) {
                Err(problem) => Err("ciphertext is not valid base64: "@ + problem),
                Ok(sealed) => match xchacha_open(key, nonce, sealed) {
                    Some(plaintext) => Ok(plaintext),
                    None => Err("decryption operation failed"@),
                },
            },
        },
    }
}

/// `cipher` is `plaintext` encrypted under `key` with `nonce`.
pub open spec fn sealed_with(
    cipher: CipherPayload,
    key: Seq<u8>,
    nonce: Seq<u8>,
    plaintext: Seq<u8>,
) -> bool {
    &&& nonce.len() == 24
    &&& cipher.algorithm@ == CIPHER_ALGORITHM@
    &&& cipher.nonce@ == base64_unpadded(nonce)
    &&& cipher.ciphertext@ == base64_unpadded(xchacha_seal(key, nonce, plaintext))
}

/// The vault key a password wrapper yields for `password`, or why not.
pub open spec fn unwrapped_key(wrapper: PasswordKeyWrapper, password: Seq<char>) -> Result<
    Seq<u8>,
    Seq<char>,
> {
    if password.len() == 0 {
        Err(empty_password_message("password"@))
    } else if password_wrapper_problem(wrapper, "password wrapper"@) is Some {
        Err(password_wrapper_problem(wrapper, "password wrapper"@).unwrap())
    } else {
        match exact_decoding("password-wrapper salt"@, wrapper.kdf.salt@, 16) {
            Err(problem) => Err(problem),
            Ok(salt) => match derived_key(
                password,
                salt,
                wrapper.kdf.memory_kib,
                wrapper.kdf.iterations,
                wrapper.kdf.parallelism,
            ) {
                Err(problem) => Err(problem),
                Ok(wrapping_key) => match opened_bytes(wrapper.cipher, wrapping_key) {
                    Err(_) => Err(
                        "unable to unlock vault key: incorrect password or damaged wrapper"@,
                    ),
                    Ok(key) => if key.len() == 32 {
                        Ok(key)
                    } else {
                        Err(
                            "unwrapped vault key has invalid length "@ + decimal(key.len())
                                + "; expected 32"@,
                        )
                    },
                },
            },
        }
    }
}

/// The serialized payload a cipher holds under an already recovered key.
pub open spec fn payload_under_key(cipher: CipherPayload, key: Seq<u8>) -> Result<
    Seq<u8>,
    Seq<char>,
> {
    match opened_bytes(cipher, key) {
        Ok(plaintext) => Ok(plaintext),
        Err(_) => Err("unable to decrypt vault: incorrect key or damaged vault"@),
    }
}

/// The serialized payload of a version-1 vault under a master password.
pub open spec fn v1_plaintext(envelope: VaultEnvelopeV1, password: Seq<char>) -> Result<
    Seq<u8>,
    Seq<char>,
> {
    if envelope.version != VAULT_FORMAT_VERSION_V1 {
        Err("unsupported version-1 vault value "@ + decimal(envelope.version as nat))
    } else {
        match exact_decoding("salt"@, envelope.kdf.salt@, 16) {
            Err(problem) => Err(problem),
            Ok(salt) => match derived_key(
                password,
                salt,
                envelope.kdf.memory_kib,
                envelope.kdf.iterations,
                envelope.kdf.parallelism,
            ) {
                Err(problem) => Err(problem),
                Ok(key) => match opened_bytes(envelope.cipher, key) {
                    Ok(plaintext) => Ok(plaintext),
                    Err(_) => Err(
                        "unable to decrypt vault: incorrect master password or damaged vault"@,
                    ),
                },
            },
        }
    }
}

pub open spec fn certificate_unlock_message() -> Seq<char> {
    "this vault uses CAC unlock; use the CAC or backup-password recovery flow"@
}

/// The serialized payload a vault holds under a master password, or why it
/// cannot be opened with one.
pub open spec fn decrypted_plaintext(envelope: VaultEnvelope, password: Seq<char>) -> Result<
    Seq<u8>,
    Seq<char>,
> {
    if password.len() == 0 {
        Err(empty_password_message("master password"@))
    } else if envelope_problem(envelope) is Some {
        Err(envelope_problem(envelope).unwrap())
    } else {
        match envelope {
            VaultEnvelope::V1(version_1) => v1_plaintext(version_1, password),
            VaultEnvelope::V2(version_2) => match version_2.unlock {
                VaultUnlockMethod::Password { wrapper } => match unwrapped_key(wrapper, password) {
                    Err(problem) => Err(problem),
                    Ok(key) => payload_under_key(version_2.cipher, key),
                },
                _ => Err(certificate_unlock_message()),
            },
        }
    }
}

/// A current password vault that Argon2 can be asked to open and that
/// opens under `password` to `plaintext`.
pub open spec fn password_vault_holding(
    envelope: VaultEnvelope,
    password: Seq<char>,
    plaintext: Seq<u8>,
) -> bool {
    &&& envelope matches VaultEnvelope::V2(version_2)
    &&& version_2.version == CURRENT_VAULT_FORMAT_VERSION
    &&& version_2.unlock is Password
    &&& envelope_callable(envelope)
    &&& gives(decrypted_plaintext(envelope, password), plaintext)
}

/// Argon2 can be asked for every password wrapper of the envelope.
pub open spec fn envelope_callable(envelope: VaultEnvelope) -> bool {
    match envelope {
        VaultEnvelope::V1(version_1) => argon2_callable(version_1.kdf),
        VaultEnvelope::V2(version_2) => match version_2.unlock {
            VaultUnlockMethod::Password { wrapper } => argon2_callable(wrapper.kdf),
            VaultUnlockMethod::Cac { backup_wrapper, .. } => argon2_callable(backup_wrapper.kdf),
            VaultUnlockMethod::Certificate { backup_wrapper, .. } => argon2_callable(
                backup_wrapper.kdf,
            ),
        },
    }
}

// ---------------------------------------------------------------------------
// Operations
fn validate_password(password: &str, description: &str) -> (result: Result<(), String>)
    ensures
        password@.len() == 0 ==> (result matches Err(message) && message@
            == empty_password_message(description@)),
        password@.len() > 0 ==> result is Ok,
{
    if password.unicode_len() == 0 {
        return Err(join2(description, " cannot be empty"));
    }
    Ok(())
}

/// Decodes a base64 field that must hold exactly `length` bytes.
fn decode_exact(field_name: &str, encoded: &str, length: usize) -> (result: Result<
    Vec<u8>,
    String,
>)
    ensures
        match exact_decoding(field_name@, encoded@, length as nat) {
            Ok(bytes) => result matches Ok(decoded) && decoded@ == bytes,
            Err(problem) => result matches Err(message) && message@ == problem,
        },
{
    let decoded = match decode_unpadded(encoded) {
        Ok(decoded) => decoded,
        Err(error) => {
            let mut message = join3("vault ", field_name, " is not valid base64: ");
            message.append(error.as_str());
            return Err(message);
        },
    };
    if decoded.len() != length {
        let mut message = join3("vault ", field_name, " has invalid length ");
        message.append(decimal_string(decoded.len() as u64).as_str());
        message.append("; expected ");
        message.append(decimal_string(length as u64).as_str());
        return Err(message);
    }
    Ok(decoded)
}

fn derive_key(password: &str, salt: &[u8], memory_kib: u32, iterations: u32, parallelism: u32) -> (result: Result<[u8; 32], String>)
    requires
        parallelism <= 0x1FFF_FFFF,
    ensures
        match derived_key(password@, salt@, memory_kib, iterations, parallelism) {
            Ok(key) => result matches Ok(derived) && derived@ == key,
            Err(problem) => result matches Err(message) && message@ == problem,
        },
{
    match argon2id_hash(password, salt, memory_kib, iterations, parallelism) {
        Ok(key) => Ok(key),
        Err(Argon2Failure::Parameters(error)) => Err(
            join2("invalid Argon2 parameters: ", error.as_str()),
        ),
        Err(Argon2Failure::Hashing(error)) => Err(
            join2("failed to derive vault key: ", error.as_str()),
        ),
    }
}

/// Encrypts `plaintext` under `key` with a fresh random nonce.
fn encrypt_bytes(plaintext: &[u8], key: &[u8; 32]) -> (result: Result<CipherPayload, String>)
    ensures
        result is Ok <==> xchacha_accepts(plaintext@.len()),
        result is Err ==> (result matches Err(message) && message@
            == "encryption operation failed"@),
        result matches Ok(cipher) ==> {
            &&& exists|nonce: Seq<u8>| sealed_with(cipher, key@, nonce, plaintext@)
            &&& gives(opened_bytes(cipher, key@), plaintext@)
        },
{
    let nonce = random_bytes(NONCE_LENGTH);
    let sealed = match xchacha_encrypt(key.as_slice(), nonce.as_slice(), plaintext) {
        Some(sealed) => sealed,
        None => {
            return Err(String::from_str("encryption operation failed"));
        },
    };
    let cipher = CipherPayload {
        algorithm: String::from_str(CIPHER_ALGORITHM),
        nonce: encode_unpadded(nonce.as_slice()),
        ciphertext: encode_unpadded(sealed.as_slice()),
    };
    proof {
        assert(sealed_with(cipher, key@, nonce@, plaintext@));
        assert(cipher.nonce@.len() > 0);
        assert(cipher.ciphertext@.len() > 0);
        assert(cipher_problem(cipher, "cipher payload"@) is None);
        assert(gives(exact_decoding("nonce"@, cipher.nonce@, 24), nonce@));
    }
    Ok(cipher)
}

/// Decrypts a cipher payload under `key`.
fn decrypt_bytes(cipher_payload: &CipherPayload, key: &[u8; 32]) -> (result: Result<
    Vec<u8>,
    String,
>)
    ensures
        match opened_bytes(*cipher_payload, key@) {
            Ok(plaintext) => result matches Ok(bytes) && bytes@ == plaintext,
            Err(problem) => result matches Err(message) && message@ == problem,
        },
{
    match cipher_payload.validate("cipher payload") {
        Ok(()) => {},
        Err(error) => {
            return Err(error);
        },
    }
    let nonce = match decode_exact("nonce", cipher_payload.nonce.as_str(), NONCE_LENGTH) {
        Ok(nonce) => nonce,
        Err(error) => {
            return Err(error);
        },
    };
    let sealed = match decode_unpadded(cipher_payload.ciphertext.as_str()) {
        Ok(sealed) => sealed,
        Err(error) => {
            return Err(join2("ciphertext is not valid base64: ", error.as_str()));
        },
    };
    match xchacha_decrypt(key.as_slice(), nonce.as_slice(), sealed.as_slice()) {
        Some(plaintext) => Ok(plaintext),
        None => Err(String::from_str("decryption operation failed")),
    }
}

/// The 32 bytes of `bytes` as a key.
fn key_from_bytes(bytes: &[u8]) -> (key: [u8; 32])
    requires
        bytes@.len() == 32,
    ensures
        key@ == bytes@,
{
    let mut key = [0u8; 32];
    let mut index: usize = 0;
    while index < 32
        invariant
            bytes@.len() == 32,
            index <= 32,
            forall|i: int| 0 <= i < index ==> key@[i] == bytes@[i],
        decreases 32 - index,
    {
        key[index] = bytes[index];
        index = index + 1;
    }
    assert(key@ =~= bytes@);
    key
}

/// Generates a new random 256-bit vault key.
pub fn generate_vault_key() -> (key: [u8; 32]) {
    random_key()
}

/// Wraps a vault key under a password: a fresh random salt, Argon2id with
/// 64 MiB, 3 iterations and 1 lane, and XChaCha20-Poly1305 with a fresh
/// nonce.
///
/// The wrapper unlocks with the same password to the same key.
pub fn create_password_wrapper(vault_key: &[u8; 32], password: &str) -> (result: Result<
    PasswordKeyWrapper,
    String,
>)
    ensures
        password@.len() == 0 ==> (result matches Err(message) && message@
            == empty_password_message("password"@)),
        password@.len() > 0 && encode_utf8(password@).len() > 0xFFFF_FFFF ==> (result matches Err(
            message,
        ) && message@ == "failed to derive vault key: "@ + "password is too long"@),
        password@.len() > 0 && encode_utf8(password@).len() <= 0xFFFF_FFFF ==> result is Ok,
        result matches Ok(wrapper) ==> {
            &&& wrapper.kdf.algorithm@ == KDF_ALGORITHM@
            &&& wrapper.kdf.memory_kib == DEFAULT_MEMORY_KIB
            &&& wrapper.kdf.iterations == DEFAULT_ITERATIONS
            &&& wrapper.kdf.parallelism == DEFAULT_PARALLELISM
            &&& exists|salt: Seq<u8>, nonce: Seq<u8>|
                {
                    &&& salt.len() == 16
                    &&& wrapper.kdf.salt@ == base64_unpadded(salt)
                    &&& sealed_with(
                        wrapper.cipher,
                        argon2id_key(password@, salt, 65536, 3, 1),
                        nonce,
                        vault_key@,
                    )
                }
            &&& gives(unwrapped_key(wrapper, password@), vault_key@)
        },
{
    match validate_password(password, "password") {
        Ok(()) => {},
        Err(error) => {
            return Err(error);
        },
    }
    let salt = random_bytes(SALT_LENGTH);
    let wrapping_key = match derive_key(
        password,
        salt.as_slice(),
        DEFAULT_MEMORY_KIB,
        DEFAULT_ITERATIONS,
        DEFAULT_PARALLELISM,
    ) {
        Ok(key) => key,
        Err(error) => {
            return Err(error);
        },
    };
    let cipher = match encrypt_bytes(vault_key.as_slice(), &wrapping_key) {
        Ok(cipher) => cipher,
        Err(error) => {
            return Err(join2("failed to wrap vault key: ", error.as_str()));
        },
    };
    let wrapper = PasswordKeyWrapper {
        kdf: KdfParameters {
            algorithm: String::from_str(KDF_ALGORITHM),
            memory_kib: DEFAULT_MEMORY_KIB,
            iterations: DEFAULT_ITERATIONS,
            parallelism: DEFAULT_PARALLELISM,
            salt: encode_unpadded(salt.as_slice()),
        },
        cipher,
    };
    proof {
        assert(wrapper.kdf.salt@.len() > 0);
        assert(password_wrapper_problem(wrapper, "password wrapper"@) is None);
        assert(gives(exact_decoding("password-wrapper salt"@, wrapper.kdf.salt@, 16), salt@));
    }
    Ok(wrapper)
}

/// Recovers a vault key from a password wrapper.
pub fn unwrap_key_with_password(wrapper: &PasswordKeyWrapper, password: &str) -> (result: Result<
    [u8; 32],
    String,
>)
    requires
        argon2_callable(wrapper.kdf),
    ensures
        match unwrapped_key(*wrapper, password@) {
            Ok(key) => result matches Ok(recovered) && recovered@ == key,
            Err(problem) => result matches Err(message) && message@ == problem,
        },
{
    match validate_password(password, "password") {
        Ok(()) => {},
        Err(error) => {
            return Err(error);
        },
    }
    match wrapper.validate("password wrapper") {
        Ok(()) => {},
        Err(error) => {
            return Err(error);
        },
    }
    let salt = match decode_exact("password-wrapper salt", wrapper.kdf.salt.as_str(), SALT_LENGTH) {
        Ok(salt) => salt,
        Err(error) => {
            return Err(error);
        },
    };
    let wrapping_key = match derive_key(
        password,
        salt.as_slice(),
        wrapper.kdf.memory_kib,
        wrapper.kdf.iterations,
        wrapper.kdf.parallelism,
    ) {
        Ok(key) => key,
        Err(error) => {
            return Err(error);
        },
    };
    let plaintext = match decrypt_bytes(&wrapper.cipher, &wrapping_key) {
        Ok(plaintext) => plaintext,
        Err(_) => {
            return Err(
                String::from_str(
                    "unable to unlock vault key: incorrect password or damaged wrapper",
                ),
            );
        },
    };
    if plaintext.len() != KEY_LENGTH {
        let mut message = join2(
            "unwrapped vault key has invalid length ",
            decimal_string(plaintext.len() as u64).as_str(),
        );
        message.append("; expected 32");
        return Err(message);
    }
    Ok(key_from_bytes(plaintext.as_slice()))
}

/// Encrypts a serialized payload under an already chosen vault key.
pub fn encrypt_payload_with_key(plaintext: &[u8], vault_key: &[u8; 32]) -> (result: Result<
    CipherPayload,
    String,
>)
    ensures
        result is Ok <==> xchacha_accepts(plaintext@.len()),
        result is Err ==> (result matches Err(message) && message@
            == "failed to encrypt vault payload: "@ + "encryption operation failed"@),
        result matches Ok(cipher) ==> {
            &&& exists|nonce: Seq<u8>| sealed_with(cipher, vault_key@, nonce, plaintext@)
            &&& gives(payload_under_key(cipher, vault_key@), plaintext@)
        },
{
    match encrypt_bytes(plaintext, vault_key) {
        Ok(cipher) => Ok(cipher),
        Err(error) => Err(join2("failed to encrypt vault payload: ", error.as_str())),
    }
}

/// Decrypts a serialized payload under an already recovered vault key.
pub fn decrypt_payload_with_key(cipher_payload: &CipherPayload, vault_key: &[u8; 32]) -> (result:
    Result<Vec<u8>, String>)
    ensures
        match payload_under_key(*cipher_payload, vault_key@) {
            Ok(plaintext) => result matches Ok(bytes) && bytes@ == plaintext,
            Err(problem) => result matches Err(message) && message@ == problem,
        },
{
    match decrypt_bytes(cipher_payload, vault_key) {
        Ok(plaintext) => Ok(plaintext),
        Err(_) => Err(String::from_str("unable to decrypt vault: incorrect key or damaged vault")),
    }
}

/// Creates a version-2 password vault holding a serialized payload: a
/// random vault key encrypts the payload, and a password wrapper protects
/// the key.
///
/// The vault opens with the same password to the same payload.
pub fn encrypt_payload(plaintext: &[u8], master_password: &str) -> (result: Result<
    VaultEnvelope,
    String,
>)
    ensures
        master_password@.len() == 0 ==> (result matches Err(message) && message@
            == empty_password_message("master password"@)),
        master_password@.len() > 0 && encode_utf8(master_password@).len() <= 0xFFFF_FFFF
            && xchacha_accepts(plaintext@.len()) ==> result is Ok,
        result matches Ok(envelope) ==> password_vault_holding(
            envelope,
            master_password@,
            plaintext@,
        ),
{
    match validate_password(master_password, "master password") {
        Ok(()) => {},
        Err(error) => {
            return Err(error);
        },
    }
    let vault_key = random_key();
    let cipher = match encrypt_bytes(plaintext, &vault_key) {
        Ok(cipher) => cipher,
        Err(error) => {
            return Err(join2("failed to encrypt vault payload: ", error.as_str()));
        },
    };
    let wrapper = match create_password_wrapper(&vault_key, master_password) {
        Ok(wrapper) => wrapper,
        Err(error) => {
            return Err(error);
        },
    };
    let envelope = VaultEnvelope::V2(
        VaultEnvelopeV2 {
            version: CURRENT_VAULT_FORMAT_VERSION,
            unlock: VaultUnlockMethod::Password { wrapper },
            cipher,
        },
    );
    proof {
        assert(envelope_problem(envelope) is None);
    }
    Ok(envelope)
}

fn decrypt_v1_payload(envelope: &VaultEnvelopeV1, master_password: &str) -> (result: Result<
    Vec<u8>,
    String,
>)
    requires
        argon2_callable(envelope.kdf),
    ensures
        match v1_plaintext(*envelope, master_password@) {
            Ok(plaintext) => result matches Ok(bytes) && bytes@ == plaintext,
            Err(problem) => result matches Err(message) && message@ == problem,
        },
{
    if envelope.version != VAULT_FORMAT_VERSION_V1 {
        return Err(
            join2(
                "unsupported version-1 vault value ",
                decimal_string(envelope.version as u64).as_str(),
            ),
        );
    }
    let salt = match decode_exact("salt", envelope.kdf.salt.as_str(), SALT_LENGTH) {
        Ok(salt) => salt,
        Err(error) => {
            return Err(error);
        },
    };
    let key = match derive_key(
        master_password,
        salt.as_slice(),
        envelope.kdf.memory_kib,
        envelope.kdf.iterations,
        envelope.kdf.parallelism,
    ) {
        Ok(key) => key,
        Err(error) => {
            return Err(error);
        },
    };
    match decrypt_bytes(&envelope.cipher, &key) {
        Ok(plaintext) => Ok(plaintext),
        Err(_) => Err(
            String::from_str("unable to decrypt vault: incorrect master password or damaged vault"),
        ),
    }
}

/// Opens a version-1 vault, or a version-2 vault with password unlock, and
/// returns its serialized payload. Certificate and CAC vaults need their own
/// unlock or the backup password.
pub fn decrypt_payload(envelope: &VaultEnvelope, master_password: &str) -> (result: Result<
    Vec<u8>,
    String,
>)
    requires
        envelope_callable(*envelope),
    ensures
        match decrypted_plaintext(*envelope, master_password@) {
            Ok(plaintext) => result matches Ok(bytes) && bytes@ == plaintext,
            Err(problem) => result matches Err(message) && message@ == problem,
        },
{
    match validate_password(master_password, "master password") {
        Ok(()) => {},
        Err(error) => {
            return Err(error);
        },
    }
    match envelope.validate() {
        Ok(()) => {},
        Err(error) => {
            return Err(error);
        },
    }
    match envelope {
        VaultEnvelope::V1(version_1) => decrypt_v1_payload(version_1, master_password),
        VaultEnvelope::V2(version_2) => match &version_2.unlock {
            VaultUnlockMethod::Password { wrapper } => {
                let key = match unwrap_key_with_password(wrapper, master_password) {
                    Ok(key) => key,
                    Err(error) => {
                        return Err(error);
                    },
                };
                decrypt_payload_with_key(&version_2.cipher, &key)
            },
            _ => Err(
                String::from_str(
                    "this vault uses CAC unlock; use the CAC or backup-password recovery flow",
                ),
            ),
        },
    }
}

} // verus!
