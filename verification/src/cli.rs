//! The command line: which mode a parsed command line selects.
use vstd::prelude::*;

verus! {

/// `vault` subcommands.
#[derive(Debug, Clone, Copy, PartialEq, Eq, Structural)]
pub enum VaultCommand {
    /// Initialize a new encrypted vault.
    Init,
    /// Display vault metadata without secret values.
    Info,
    /// Configure the clipboard timeout stored in the vault's settings.
    Timeout,
    /// Open a certificate or CAC vault with its backup password.
    Recover,
    /// Replace the certificate that protects a vault.
    RotateCertificate,
}

/// `entry` subcommands.
#[derive(Debug, Clone, Copy, PartialEq, Eq, Structural)]
pub enum EntryCommand {
    /// Add a credential entry.
    Add,
    /// List credential metadata without secret values.
    List,
    /// Remove a credential entry.
    Remove,
}

/// A subcommand.
#[derive(Debug, Clone, Copy, PartialEq, Eq, Structural)]
pub enum Command {
    Vault(VaultCommand),
    Entry(EntryCommand),
}

/// The command line as given: flags, options and the subcommand.
#[derive(Debug, Clone)]
pub struct Cli {
    /// Start the global hotkey listener.
    pub listen: bool,
    /// Path to the encrypted vault.
    pub vault: Option<String>,
    /// Seconds to keep a copied secret in the clipboard, for this session
    /// only; the vault's setting applies when it is not given.
    pub clear_seconds: Option<u64>,
    /// Internal helper: show a short-lived overlay with this message.
    pub overlay: Option<String>,
    /// Internal helper: show a countdown overlay of this many seconds.
    pub countdown: Option<u64>,
    pub command: Option<Command>,
}

/// What the program is asked to do.
#[derive(Debug, Clone, PartialEq, Eq)]
pub enum Mode {
    Listen,
    VaultInit,
    VaultInfo,
    VaultTimeout,
    VaultRecover,
    VaultRotateCertificate,
    EntryAdd,
    EntryList,
    EntryRemove,
    /// Internal helper mode: show an overlay with this message.
    Overlay(String),
    /// Internal helper mode: show a countdown of this many seconds.
    Countdown(u64),
}

/// The settings a command line selects.
#[derive(Debug, Clone)]
pub struct Config {
    pub mode: Mode,
    pub vault_file: String,
    /// The clipboard timeout given on the command line, if one was.
    pub clear_seconds: Option<u64>,
}

pub open spec fn mode_of_command(command: Command) -> Mode {
    match command {
        Command::Vault(VaultCommand::Init) => Mode::VaultInit,
        Command::Vault(VaultCommand::Info) => Mode::VaultInfo,
        Command::Vault(VaultCommand::Timeout) => Mode::VaultTimeout,
        Command::Vault(VaultCommand::Recover) => Mode::VaultRecover,
        Command::Vault(VaultCommand::RotateCertificate) => Mode::VaultRotateCertificate,
        Command::Entry(EntryCommand::Add) => Mode::EntryAdd,
        Command::Entry(EntryCommand::List) => Mode::EntryList,
        Command::Entry(EntryCommand::Remove) => Mode::EntryRemove,
    }
}

pub open spec fn missing_mode_message() -> Seq<char> {
    "missing mode: use --listen, vault init, vault info, vault timeout, vault recover, vault rotate-certificate, entry add, entry list, or entry remove"@
}

/// The mode a command line selects, or why it selects none: `--overlay`
/// and `--countdown` each stand alone, `--overlay` checked first;
/// `--listen` takes no subcommand; otherwise the subcommand decides.
pub open spec fn selected_mode(cli: Cli) -> Result<Mode, Seq<char>> {
    match cli.overlay {
        Some(message) => if cli.listen || cli.command is Some || cli.countdown is Some {
            Err("--overlay cannot be combined with another mode"@)
        } else {
            Ok(Mode::Overlay(message))
        },
        None => match cli.countdown {
            Some(seconds) => if cli.listen || cli.command is Some {
                Err("--countdown cannot be combined with another mode"@)
            } else {
                Ok(Mode::Countdown(seconds))
            },
            None => if cli.listen {
                if cli.command is Some {
                    Err("--listen cannot be combined with a subcommand"@)
                } else {
                    Ok(Mode::Listen)
                }
            } else {
                match cli.command {
                    Some(command) => Ok(mode_of_command(command)),
                    None => Err(missing_mode_message()),
                }
            },
        },
    }
}

fn command_mode(command: Command) -> (mode: Mode)
    ensures
        mode == mode_of_command(command),
{
    match command {
        Command::Vault(VaultCommand::Init) => Mode::VaultInit,
        Command::Vault(VaultCommand::Info) => Mode::VaultInfo,
        Command::Vault(VaultCommand::Timeout) => Mode::VaultTimeout,
        Command::Vault(VaultCommand::Recover) => Mode::VaultRecover,
        Command::Vault(VaultCommand::RotateCertificate) => Mode::VaultRotateCertificate,
        Command::Entry(EntryCommand::Add) => Mode::EntryAdd,
        Command::Entry(EntryCommand::List) => Mode::EntryList,
        Command::Entry(EntryCommand::Remove) => Mode::EntryRemove,
    }
}

/// The settings a command line selects: its mode, the vault file (the
/// default unless `--vault` names one) and the clipboard timeout given on
/// the command line.
pub fn parse_from(cli: Cli, default_vault_path: String) -> (result: Result<Config, String>)
    ensures
        match selected_mode(cli) {
            Ok(mode) => result matches Ok(config) && config.mode == mode
                && config.vault_file@ == (match cli.vault {
                Some(path) => path@,
                None => default_vault_path@,
            }) && config.clear_seconds == cli.clear_seconds,
            Err(problem) => result matches Err(message) && message@ == problem,
        },
{
    let Cli { listen, vault, clear_seconds, overlay, countdown, command } = cli;
    let vault_file = match vault {
        Some(path) => path,
        None => default_vault_path,
    };
    let mode = match overlay {
        Some(message) => {
            if listen || command.is_some() || countdown.is_some() {
                return Err(String::from_str("--overlay cannot be combined with another mode"));
            }
            Mode::Overlay(message)
        },
        None => match countdown {
            Some(seconds) => {
                if listen || command.is_some() {
                    return Err(String::from_str("--countdown cannot be combined with another mode"));
                }
                Mode::Countdown(seconds)
            },
            None => {
                if listen {
                    if command.is_some() {
                        return Err(
                            String::from_str("--listen cannot be combined with a subcommand"),
                        );
                    }
                    Mode::Listen
                } else {
                    match command {
                        Some(command) => command_mode(command),
                        None => {
                            return Err(
                                String::from_str(
                                    "missing mode: use --listen, vault init, vault info, vault timeout, vault recover, vault rotate-certificate, entry add, entry list, or entry remove",
                                ),
                            );
                        },
                    }
                }
            },
        },
    };
    Ok(Config { mode, vault_file, clear_seconds })
}

/// The clipboard timeout of a listener session: the one given on the
/// command line, else the vault's setting.
pub fn session_clear_seconds(configured: Option<u64>, vault_setting: u64) -> (seconds: u64)
    ensures
        seconds == match configured {
            Some(given) => given,
            None => vault_setting,
        },
{
    match configured {
        Some(given) => given,
        None => vault_setting,
    }
}

} // verus!
