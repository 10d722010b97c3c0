use password_out::providers::{default_secrets_file, expand_tilde, parse_secret_entries, path_from_arg};

#[test]
fn tilde_expands_to_home() {
    assert_eq!(expand_tilde("~", "/home/u"), "/home/u");
    assert_eq!(expand_tilde("~/x/y", "/home/u"), "/home/u/x/y");
    assert_eq!(expand_tilde("~/x", "/home/u/"), "/home/u/x");
    assert_eq!(expand_tilde("/etc/x", "/home/u"), "/etc/x");
    assert_eq!(expand_tilde("~user/x", "/home/u"), "~user/x");
    assert_eq!(default_secrets_file("/home/u"), "/home/u/.config/password-out/secrets.txt");
    assert_eq!(path_from_arg("~/s.txt", "."), "./s.txt");
}

#[test]
fn secrets_file_lines_are_read() {
    let content = "# comment\n\n  github | CTRL+ALT+G | pass|word  \r\nlab|ALT+1|x\n";
    let entries = parse_secret_entries(content, "secrets.txt").unwrap();
    assert_eq!(entries.len(), 2);
    assert_eq!(entries[0].name, "github");
    assert_eq!(entries[0].hotkey, "CTRL+ALT+G");
    assert_eq!(entries[0].secret, "pass|word");
    assert_eq!(entries[1].secret, "x");
}

#[test]
fn secrets_file_errors_name_the_line() {
    assert_eq!(
        parse_secret_entries("a|b|c\nbroken\n", "s.txt").unwrap_err(),
        "invalid line 2 in s.txt. Expected: name|hotkey|password"
    );
    assert_eq!(parse_secret_entries(" |b|c", "s.txt").unwrap_err(), "line 1 has empty name");
    assert_eq!(parse_secret_entries("a| |c", "s.txt").unwrap_err(), "line 1 has empty hotkey");
    assert_eq!(parse_secret_entries("a|b| ", "s.txt").unwrap_err(), "line 1 has empty password");
    assert_eq!(parse_secret_entries("# only\n", "s.txt").unwrap_err(), "no entries found in s.txt");
    assert_eq!(parse_secret_entries("", "s.txt").unwrap_err(), "no entries found in s.txt");
}
