//! The vault: its on-disk format, validation, and the protection of its key.
pub mod access;
pub mod certificate_vault;
pub mod crypto;
pub mod entry_ops;
pub mod format;
pub mod info;
pub mod service;
