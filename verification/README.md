# password_out

PasswordOut maps global keyboard chords to encrypted credential entries,
copies the selected secret to the clipboard for a limited time and shows a
short confirmation overlay.

## Layout

- `src/` is the library, verified with Verus:
  - `vault/` — the vault file format and its validation, payload encryption
    (Argon2id + XChaCha20-Poly1305), password and certificate protection,
    backup-password recovery and certificate rotation, entry operations over
    an interchangeable store;
  - `entries.rs`, `expiration.rs` — the entry rules and expiration reporting;
  - `certificate/` — certificate identity, key wrapping under a certificate,
    self-signed PFX creation and loading, software and CAC key providers;
  - `smartcard/` — BER-TLV, APDU exchanges, PIV commands and answers,
    PKCS#1 v1.5 padding removal, CAC key wrapping;
  - `hotkey/` — chord parsing and canonical spelling, the Windows and macOS
    forms, the listener's dispatch decisions and the clipboard-secret guard;
  - `overlay.rs`, `providers.rs`, `cli.rs`, `text.rs`.
- `app/` is the program around it: command line, files, prompts, clipboard,
  terminal listener.
- `tests/` exercises the library with the real outside crates linked.
