//! Where a certificate and its private key come from.
use vstd::prelude::*;

use crate::certificate::key_wrap::KeyWrapAlgorithm;

verus! {

/// Supplies the X.509 certificate whose public key wraps a vault key.
pub trait CertificateSource {
    /// What `certificate_der` answers, where the source knows it in
    /// advance; a source that computes it on each call leaves it `None`.
    open spec fn certificate_answer(&self) -> Option<Result<Seq<u8>, Seq<char>>> {
        None
    }

    fn certificate_der(&self) -> (result: Result<Vec<u8>, String>)
        ensures
            self.certificate_answer() matches Some(answer) ==> bytes_outcome(result) == answer,
    ;
}

/// One private-key operation: what was asked and what came back.
pub struct UnwrapCall {
    pub algorithm: KeyWrapAlgorithm,
    pub wrapped_key: Seq<u8>,
    pub outcome: Result<Seq<u8>, Seq<char>>,
}

pub open spec fn bytes_outcome(result: Result<Vec<u8>, String>) -> Result<Seq<u8>, Seq<char>> {
    match result {
        Ok(bytes) => Ok(bytes@),
        Err(error) => Err(error@),
    }
}

/// Performs the private-key operation that recovers a wrapped vault key.
/// Software PFX files and CAC/PIV cards implement it differently.
///
/// Every operation is recorded in `unwrap_calls`, with its answer.
pub trait CertificatePrivateKey {
    /// The private-key operations asked of this key so far, oldest first.
    open spec fn unwrap_calls(&self) -> Seq<UnwrapCall> {
        Seq::empty()
    }

    fn unwrap_key(&mut self, algorithm: KeyWrapAlgorithm, wrapped_key: &[u8]) -> (result: Result<
        Vec<u8>,
        String,
    >)
        ensures
            final(self).unwrap_calls() == old(self).unwrap_calls().push(
                UnwrapCall { algorithm, wrapped_key: wrapped_key@, outcome: bytes_outcome(result) },
            ),
    ;
}

/// A certificate together with access to its private key: initialization
/// needs only the certificate, unlocking needs both.
pub trait CertificateKeyProvider: CertificateSource + CertificatePrivateKey {

}

impl<T: CertificateSource + CertificatePrivateKey> CertificateKeyProvider for T {

}

} // verus!
