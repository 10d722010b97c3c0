//! What `vault info` reports about a vault file without unlocking it.
use vstd::prelude::*;

use crate::text::{decimal, decimal_string, join2, string_views};
use crate::vault::format::{
    envelope_problem, CertificateBackend, CertificateKeyWrapper, VaultEnvelope, VaultUnlockMethod,
};

verus! {

pub open spec fn identity_lines(wrapper: CertificateKeyWrapper) -> Seq<Seq<char>> {
    seq![
        "  Certificate subject: "@ + wrapper.identity.subject@,
        "  Certificate issuer: "@ + wrapper.identity.issuer@,
        "  Certificate serial: "@ + wrapper.identity.serial_number@,
        "  Certificate SHA-256: "@ + wrapper.identity.sha256_fingerprint@,
        "  Certificate valid from: "@ + wrapper.identity.not_before@,
        "  Certificate valid until: "@ + wrapper.identity.not_after@,
    ]
}

pub open spec fn backend_lines(backend: CertificateBackend) -> Seq<Seq<char>> {
    match backend {
        CertificateBackend::Pfx { suggested_filename } => seq![
            "  Certificate backend: Software PFX"@,
            match suggested_filename {
                Some(filename) => "  Suggested PFX: "@ + filename@,
                None => "  Suggested PFX: Not recorded"@,
            },
        ],
        CertificateBackend::Cac { slot } => seq![
            "  Certificate backend: CAC / PIV"@,
            "  PIV slot: "@ + slot@,
        ],
    }
}

/// The lines describing how a version-2 vault is unlocked.
pub open spec fn unlock_lines(unlock: VaultUnlockMethod) -> Seq<Seq<char>> {
    match unlock {
        VaultUnlockMethod::Password { wrapper } => seq![
            "  Unlock method: Master password"@,
            "  Password KDF: "@ + wrapper.kdf.algorithm@,
            "  Backup recovery: Not configured"@,
        ],
        VaultUnlockMethod::Cac { cac_wrapper, backup_wrapper } => seq![
            "  Unlock method: CAC / PIV smart card (legacy format)"@,
            "  Certificate backend: CAC / PIV"@,
            "  PIV slot: "@ + cac_wrapper.slot@,
            "  Certificate SHA-256: "@ + cac_wrapper.certificate_sha256@,
            "  Key-wrap algorithm: "@ + cac_wrapper.algorithm@,
            "  Backup recovery: Configured"@,
            "  Backup KDF: "@ + backup_wrapper.kdf.algorithm@,
        ],
        VaultUnlockMethod::Certificate { certificate_wrapper, backup_wrapper } => seq![
            "  Unlock method: X.509 certificate"@,
        ] + backend_lines(certificate_wrapper.backend) + seq![
            "  Key-wrap algorithm: "@ + certificate_wrapper.algorithm.spec_name(),
        ] + identity_lines(certificate_wrapper) + seq![
            "  Backup recovery: Configured"@,
            "  Backup KDF: "@ + backup_wrapper.kdf.algorithm@,
        ],
    }
}

/// The report on a vault file at `path`, line by line, or the first
/// problem that makes the file invalid.
pub open spec fn info_report(envelope: VaultEnvelope, path: Seq<char>) -> Result<
    Seq<Seq<char>>,
    Seq<char>,
> {
    match envelope_problem(envelope) {
        Some(problem) => Err(problem),
        None => Ok(
            seq!["PasswordOut vault information:"@, "  Path: "@ + path] + match envelope {
                VaultEnvelope::V1(version_1) => seq![
                    "  Format version: "@ + decimal(version_1.version as nat),
                    "  Unlock method: Master password"@,
                    "  Payload cipher: "@ + version_1.cipher.algorithm@,
                    "  Password KDF: "@ + version_1.kdf.algorithm@,
                    "  Backup recovery: Not configured"@,
                ],
                VaultEnvelope::V2(version_2) => seq![
                    "  Format version: "@ + decimal(version_2.version as nat),
                    "  Payload cipher: "@ + version_2.cipher.algorithm@,
                ] + unlock_lines(version_2.unlock),
            } + seq!["  Entry count: Encrypted; unlock the vault to inspect entries"@],
        ),
    }
}

fn push_line(lines: &mut Vec<String>, label: &str, value: &str)
    ensures
        string_views(final(lines)@) == string_views(old(lines)@).push(label@ + value@),
{
    let ghost before = string_views(lines@);
    lines.push(join2(label, value));
    assert(string_views(lines@) =~= before.push(label@ + value@));
}

fn push_text(lines: &mut Vec<String>, text: &str)
    ensures
        string_views(final(lines)@) == string_views(old(lines)@).push(text@),
{
    let ghost before = string_views(lines@);
    lines.push(String::from_str(text));
    assert(string_views(lines@) =~= before.push(text@));
}

/// The `vault info` report for the vault file at `path`: format version,
/// payload cipher, unlock method and its wrappers, certificate identity and
/// backup recovery, without unlocking anything.
pub fn vault_info_lines(envelope: &VaultEnvelope, path: &str) -> (result: Result<
    Vec<String>,
    String,
>)
    ensures
        match info_report(*envelope, path@) {
            Ok(lines) => result matches Ok(report) && string_views(report@) == lines,
            Err(problem) => result matches Err(message) && message@ == problem,
        },
{
    match envelope.validate() {
        Ok(()) => {},
        Err(error) => {
            return Err(error);
        },
    }
    let mut lines: Vec<String> = Vec::new();
    assert(string_views(lines@) =~= Seq::<Seq<char>>::empty());
    push_text(&mut lines, "PasswordOut vault information:");
    push_line(&mut lines, "  Path: ", path);
    let ghost head = string_views(lines@);
    match envelope {
        VaultEnvelope::V1(version_1) => {
            push_line(&mut lines, "  Format version: ", decimal_string(version_1.version as u64).as_str());
            push_text(&mut lines, "  Unlock method: Master password");
            push_line(&mut lines, "  Payload cipher: ", version_1.cipher.algorithm.as_str());
            push_line(&mut lines, "  Password KDF: ", version_1.kdf.algorithm.as_str());
            push_text(&mut lines, "  Backup recovery: Not configured");
        },
        VaultEnvelope::V2(version_2) => {
            push_line(&mut lines, "  Format version: ", decimal_string(version_2.version as u64).as_str());
            push_line(&mut lines, "  Payload cipher: ", version_2.cipher.algorithm.as_str());
            let ghost before_unlock = string_views(lines@);
            match &version_2.unlock {
                VaultUnlockMethod::Password { wrapper } => {
                    push_text(&mut lines, "  Unlock method: Master password");
                    push_line(&mut lines, "  Password KDF: ", wrapper.kdf.algorithm.as_str());
                    push_text(&mut lines, "  Backup recovery: Not configured");
                },
                VaultUnlockMethod::Cac { cac_wrapper, backup_wrapper } => {
                    push_text(&mut lines, "  Unlock method: CAC / PIV smart card (legacy format)");
                    push_text(&mut lines, "  Certificate backend: CAC / PIV");
                    push_line(&mut lines, "  PIV slot: ", cac_wrapper.slot.as_str());
                    push_line(&mut lines, "  Certificate SHA-256: ", cac_wrapper.certificate_sha256.as_str());
                    push_line(&mut lines, "  Key-wrap algorithm: ", cac_wrapper.algorithm.as_str());
                    push_text(&mut lines, "  Backup recovery: Configured");
                    push_line(&mut lines, "  Backup KDF: ", backup_wrapper.kdf.algorithm.as_str());
                },
                VaultUnlockMethod::Certificate { certificate_wrapper, backup_wrapper } => {
                    push_text(&mut lines, "  Unlock method: X.509 certificate");
                    match &certificate_wrapper.backend {
                        CertificateBackend::Pfx { suggested_filename } => {
                            push_text(&mut lines, "  Certificate backend: Software PFX");
                            match suggested_filename {
                                Some(filename) => push_line(&mut lines, "  Suggested PFX: ", filename.as_str()),
                                None => push_text(&mut lines, "  Suggested PFX: Not recorded"),
                            }
                        },
                        CertificateBackend::Cac { slot } => {
                            push_text(&mut lines, "  Certificate backend: CAC / PIV");
                            push_line(&mut lines, "  PIV slot: ", slot.as_str());
                        },
                    }
                    push_line(&mut lines, "  Key-wrap algorithm: ", certificate_wrapper.algorithm.name());
                    let identity = &certificate_wrapper.identity;
                    push_line(&mut lines, "  Certificate subject: ", identity.subject.as_str());
                    push_line(&mut lines, "  Certificate issuer: ", identity.issuer.as_str());
                    push_line(&mut lines, "  Certificate serial: ", identity.serial_number.as_str());
                    push_line(&mut lines, "  Certificate SHA-256: ", identity.sha256_fingerprint.as_str());
                    push_line(&mut lines, "  Certificate valid from: ", identity.not_before.as_str());
                    push_line(&mut lines, "  Certificate valid until: ", identity.not_after.as_str());
                    push_text(&mut lines, "  Backup recovery: Configured");
                    push_line(&mut lines, "  Backup KDF: ", backup_wrapper.kdf.algorithm.as_str());
                },
            }
            assert(string_views(lines@) =~= before_unlock + unlock_lines(version_2.unlock));
        },
    }
    push_text(&mut lines, "  Entry count: Encrypted; unlock the vault to inspect entries");
    proof {
        let report = info_report(*envelope, path@);
        assert(string_views(lines@) =~= report->Ok_0);
    }
    Ok(lines)
}

} // verus!
