use password_out::cli::{
    parse_from, session_clear_seconds, Cli, Command, EntryCommand, Mode, VaultCommand,
};

fn cli(listen: bool, overlay: Option<&str>, command: Option<Command>) -> Cli {
    Cli {
        listen,
        vault: None,
        clear_seconds: None,
        overlay: overlay.map(str::to_string),
        countdown: None,
        command,
    }
}

#[test]
fn modes_follow_flags_and_subcommands() {
    let config = parse_from(cli(true, None, None), "/v.json".to_string()).unwrap();
    assert_eq!(config.mode, Mode::Listen);
    assert_eq!(config.vault_file, "/v.json");
    assert_eq!(config.clear_seconds, None);

    let mut with_vault = cli(false, None, Some(Command::Entry(EntryCommand::Remove)));
    with_vault.vault = Some("mine.json".to_string());
    with_vault.clear_seconds = Some(5);
    let config = parse_from(with_vault, "/v.json".to_string()).unwrap();
    assert_eq!(config.mode, Mode::EntryRemove);
    assert_eq!(config.vault_file, "mine.json");
    assert_eq!(config.clear_seconds, Some(5));

    assert_eq!(
        parse_from(cli(false, None, Some(Command::Vault(VaultCommand::Init))), String::new()).unwrap().mode,
        Mode::VaultInit
    );
    assert_eq!(
        parse_from(cli(false, Some("hi"), None), String::new()).unwrap().mode,
        Mode::Overlay("hi".to_string())
    );
}

#[test]
fn documented_vault_modes_are_selected() {
    let cases = [
        (VaultCommand::Init, Mode::VaultInit),
        (VaultCommand::Info, Mode::VaultInfo),
        (VaultCommand::Timeout, Mode::VaultTimeout),
        (VaultCommand::Recover, Mode::VaultRecover),
        (VaultCommand::RotateCertificate, Mode::VaultRotateCertificate),
    ];
    for (command, mode) in cases {
        let config =
            parse_from(cli(false, None, Some(Command::Vault(command))), "/v.json".to_string()).unwrap();
        assert_eq!(config.mode, mode);
        assert_eq!(config.vault_file, "/v.json");
    }
    assert_eq!(
        parse_from(cli(false, None, Some(Command::Entry(EntryCommand::Add))), String::new()).unwrap().mode,
        Mode::EntryAdd
    );
    assert_eq!(
        parse_from(cli(false, None, Some(Command::Entry(EntryCommand::List))), String::new()).unwrap().mode,
        Mode::EntryList
    );
}

#[test]
fn countdown_stands_alone() {
    let mut countdown = cli(false, None, None);
    countdown.countdown = Some(5);
    assert_eq!(parse_from(countdown.clone(), String::new()).unwrap().mode, Mode::Countdown(5));

    let mut with_listen = countdown.clone();
    with_listen.listen = true;
    assert_eq!(
        parse_from(with_listen, String::new()).unwrap_err(),
        "--countdown cannot be combined with another mode"
    );

    let mut with_overlay = countdown;
    with_overlay.overlay = Some("hi".to_string());
    assert_eq!(
        parse_from(with_overlay, String::new()).unwrap_err(),
        "--overlay cannot be combined with another mode"
    );
}

#[test]
fn listener_timeout_overrides_vault_setting_for_one_session() {
    let mut listen = cli(true, None, None);
    listen.clear_seconds = Some(5);
    let config = parse_from(listen, String::new()).unwrap();
    assert_eq!(session_clear_seconds(config.clear_seconds, 30), 5);
    assert_eq!(session_clear_seconds(None, 45), 45);
}

#[test]
fn conflicting_or_missing_modes_are_refused() {
    assert_eq!(
        parse_from(cli(true, Some("hi"), None), String::new()).unwrap_err(),
        "--overlay cannot be combined with another mode"
    );
    assert_eq!(
        parse_from(cli(true, None, Some(Command::Entry(EntryCommand::List))), String::new()).unwrap_err(),
        "--listen cannot be combined with a subcommand"
    );
    assert_eq!(
        parse_from(cli(false, None, None), String::new()).unwrap_err(),
        "missing mode: use --listen, vault init, vault info, vault timeout, vault recover, vault rotate-certificate, entry add, entry list, or entry remove"
    );
}
