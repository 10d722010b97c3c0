//! Protecting a vault key with an X.509 certificate: the certificate's
//! identity, wrapping a key under its public key, and the providers that
//! hold the matching private key.
pub mod cac;
pub mod identity;
pub mod key_wrap;
pub mod provider;
pub mod self_signed;
pub mod issuance;
pub mod pfx;
