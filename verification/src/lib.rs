//! PasswordOut: a hotkey-driven credential vault.
//!
//! The library holds the vault format and its validation, the entry rules,
//! expiration reporting, the BER-TLV and APDU logic used to talk to PIV smart
//! cards, and the cryptographic wrapping of vault keys.
pub mod certificate;
pub mod cli;
pub mod entries;
pub mod expiration;
pub mod hotkey;
pub mod overlay;
pub mod providers;
pub mod smartcard;
pub mod text;
pub mod vault;
