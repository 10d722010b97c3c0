//! The RSA key-transport check of a card's key-management key: a temporary
//! key is encrypted under the slot-9D certificate with RSAES-PKCS1-v1_5,
//! the card decrypts it, and what comes back must be that key.
use vstd::prelude::*;

use rsa::traits::PublicKeyParts;

use crate::smartcard::wrapping::{
    parse_x509_key_info, rsa_public_key_from_spki, spec_decode_pkcs1_v15,
    decode_pkcs1_v15_encoded_message, x509_key_info, Pkcs1Error,
};
use crate::text::{decimal, decimal_string, join2, join3};

verus! {

/// The modulus size, in bytes, of the keys the check supports (RSA-2048).
pub const ROUND_TRIP_MODULUS_BYTES: usize = 256;

/// The size of the temporary key, in bytes.
pub const ROUND_TRIP_KEY_BYTES: usize = 32;

/// `PublicKeyParts::size` (rsa): the modulus size in bytes.
#[verifier::external_body]
fn rsa_modulus_size(key: &rsa::RsaPublicKey) -> (size: usize) {
    key.size()
}

/// `RsaPublicKey::encrypt` (rsa) with `Pkcs1v15Encrypt` and the operating
/// system's random generator; `None` where rsa refuses the message. The
/// padding is random, so nothing is stated of the ciphertext.
#[verifier::external_body]
fn rsa_pkcs1v15_encrypt(key: &rsa::RsaPublicKey, message: &[u8]) -> (ciphertext: Option<Vec<u8>>) {
    key.encrypt(&mut rand::rngs::OsRng, rsa::Pkcs1v15Encrypt, message).ok()
}

pub open spec fn modulus_size_message(size: nat) -> Seq<char> {
    "CAC RSA key has a modulus size of "@ + decimal(size)
        + " bytes; this test currently supports RSA-2048 only"@
}

pub open spec fn ciphertext_length_message(length: nat, size: nat) -> Seq<char> {
    "RSA ciphertext has invalid length "@ + decimal(length) + "; expected "@ + decimal(size)
}

/// The errors of encrypting the temporary key once the certificate parsed
/// with nothing left over: its key is not an RSA key rsa accepts, its
/// modulus is not 256 bytes, or the encryption failed or gave a ciphertext
/// of another length than the modulus.
pub open spec fn round_trip_key_failure(message: Seq<char>) -> bool {
    ||| message == "failed to decode RSA public key from slot-9D certificate"@
    ||| exists|size: nat| size != 256 && message == #[trigger] modulus_size_message(size)
    ||| message == "failed to encrypt the temporary key with the slot-9D public key"@
    ||| exists|length: nat| length != 256 && message == #[trigger] ciphertext_length_message(
        length,
        256,
    )
}

/// Encrypts a temporary key under the RSA public key of a card's slot-9D
/// certificate with RSAES-PKCS1-v1_5, for the card to decrypt. The
/// certificate must parse with no bytes left over and carry an RSA-2048
/// key; the ciphertext is as long as the modulus.
pub fn round_trip_ciphertext(certificate_der: &[u8], test_key: &[u8]) -> (result: Result<
    Vec<u8>,
    String,
>)
    ensures
        match x509_key_info(certificate_der@) {
            Err(problem) => result matches Err(message) && message@
                == "failed to parse slot-9D certificate for RSA test: "@ + problem,
            Ok((remaining, _, _)) => if remaining > 0 {
                result matches Err(message) && message@ == decimal(remaining)
                    + " trailing byte(s) remained after parsing the slot-9D certificate"@
            } else {
                match result {
                    Ok(ciphertext) => ciphertext@.len() == ROUND_TRIP_MODULUS_BYTES,
                    Err(message) => round_trip_key_failure(message@),
                }
            },
        },
{
    let (remaining, _algorithm_oid, spki) = match parse_x509_key_info(certificate_der) {
        Ok(info) => info,
        Err(error) => {
            return Err(join2("failed to parse slot-9D certificate for RSA test: ", error.as_str()));
        },
    };
    if remaining > 0 {
        return Err(
            join2(
                decimal_string(remaining as u64).as_str(),
                " trailing byte(s) remained after parsing the slot-9D certificate",
            ),
        );
    }
    let public_key = match rsa_public_key_from_spki(spki.as_slice()) {
        Some(key) => key,
        None => {
            return Err(String::from_str("failed to decode RSA public key from slot-9D certificate"));
        },
    };
    let size = rsa_modulus_size(&public_key);
    if size != ROUND_TRIP_MODULUS_BYTES {
        let message = join3(
            "CAC RSA key has a modulus size of ",
            decimal_string(size as u64).as_str(),
            " bytes; this test currently supports RSA-2048 only",
        );
        assert(message@ == modulus_size_message(size as nat));
        return Err(message);
    }
    let ciphertext = match rsa_pkcs1v15_encrypt(&public_key, test_key) {
        Some(ciphertext) => ciphertext,
        None => {
            return Err(
                String::from_str("failed to encrypt the temporary key with the slot-9D public key"),
            );
        },
    };
    if ciphertext.len() != size {
        let message = join3(
            "RSA ciphertext has invalid length ",
            decimal_string(ciphertext.len() as u64).as_str(),
            "; expected ",
        );
        let mut message = message;
        message.append(decimal_string(size as u64).as_str());
        assert(message@ == ciphertext_length_message(ciphertext@.len(), 256));
        return Err(message);
    }
    Ok(ciphertext)
}

pub open spec fn recovered_length_message(length: nat) -> Seq<char> {
    "CAC recovered a key containing "@ + decimal(length) + " bytes; expected 32"@
}

/// What the check concludes from the card's answer: the PKCS#1 v1.5
/// padding is removed, and the key inside must be the 32-byte original.
pub open spec fn round_trip_outcome(original: Seq<u8>, encoded: Seq<u8>) -> Result<(), Seq<char>> {
    match spec_decode_pkcs1_v15(encoded) {
        Err(error) => Err("failed to decode the CAC RSA result: "@ + error.spec_message()),
        Ok(recovered) => if recovered.len() != 32 {
            Err(recovered_length_message(recovered.len()))
        } else if recovered != original {
            Err(
                "CAC RSA key-transport test failed: recovered key does not match the original temporary key"@,
            )
        } else {
            Ok(())
        },
    }
}

fn same_bytes(a: &[u8], b: &[u8]) -> (same: bool)
    ensures
        same == (a@ == b@),
{
    if a.len() != b.len() {
        return false;
    }
    let mut index: usize = 0;
    while index < a.len()
        invariant
            a@.len() == b@.len(),
            index <= a@.len(),
            forall|i: int| 0 <= i < index ==> a@[i] == b@[i],
        decreases a@.len() - index,
    {
        if a[index] != b[index] {
            return false;
        }
        index = index + 1;
    }
    assert(a@ =~= b@);
    true
}

/// Judges the card's answer to the key-transport request: `Ok` exactly
/// when the padding comes off and leaves the 32-byte original key.
pub fn round_trip_verdict(original: &[u8], encoded: &[u8]) -> (result: Result<(), String>)
    ensures
        match round_trip_outcome(original@, encoded@) {
            Ok(()) => result is Ok,
            Err(problem) => result matches Err(message) && message@ == problem,
        },
        result is Ok <==> (original@.len() == 32 && spec_decode_pkcs1_v15(encoded@) == Ok::<
            Seq<u8>,
            Pkcs1Error,
        >(original@)),
{
    let recovered = match decode_pkcs1_v15_encoded_message(encoded) {
        Ok(recovered) => recovered,
        Err(error) => {
            return Err(join2("failed to decode the CAC RSA result: ", error.message().as_str()));
        },
    };
    if recovered.len() != ROUND_TRIP_KEY_BYTES {
        return Err(
            join3(
                "CAC recovered a key containing ",
                decimal_string(recovered.len() as u64).as_str(),
                " bytes; expected 32",
            ),
        );
    }
    if !same_bytes(recovered.as_slice(), original) {
        return Err(
            String::from_str(
                "CAC RSA key-transport test failed: recovered key does not match the original temporary key",
            ),
        );
    }
    Ok(())
}

} // verus!
