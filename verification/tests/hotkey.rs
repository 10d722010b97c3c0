use password_out::expiration::DayNumber;
use password_out::hotkey::listener::{
    build_entry_list_overlay, build_macos_entry_list_overlay, check_entries_loaded, copied_message,
    entry_registration,
    macos_copied_message, pad_right, runtime_entries, HotkeyAction, HotkeyDispatcher,
};
use password_out::hotkey::macos;
use password_out::hotkey::windows::{
    availability_query, canonicalize, captured_chord, is_reserved_hotkey, parse_hotkey,
    parse_u32, parse_virtual_key, primary_key_name, registration_answer, suggestion_candidates,
    ParsedHotkey, SuggestionSearch, LIST_HOTKEY_ID, MOD_ALT, MOD_CONTROL, MOD_NOREPEAT, MOD_SHIFT,
    MOD_WIN,
};
use password_out::hotkey::{is_supported_primary_key, KeyStyle, RuntimeEntry};
use password_out::vault::format::VaultEntry;

fn runtime(account: &str, hotkey: &str, expires_on: Option<&str>, warning: Option<&str>) -> RuntimeEntry {
    RuntimeEntry {
        account: account.to_string(),
        hotkey: hotkey.to_string(),
        secret: "secret".to_string(),
        expires_on: expires_on.map(str::to_string),
        expiration_warning: warning.map(str::to_string),
    }
}

#[test]
fn canonical_chords_order_modifiers_and_upper_case_keys() {
    assert_eq!(canonicalize(" alt + ctrl + 1 ").unwrap(), "CTRL+ALT+1");
    assert_eq!(canonicalize("win+shift+f5").unwrap(), "SHIFT+META+F5");
    assert_eq!(canonicalize("Control+Option+a").unwrap(), "CTRL+ALT+A");
    assert_eq!(macos::canonicalize("cmd+shift+p").unwrap(), "SHIFT+META+P");
    assert_eq!(macos::canonicalize("ctrl+alt+space").unwrap(), "CTRL+ALT+SPACE");
}

#[test]
fn canonicalization_refuses_malformed_chords() {
    assert_eq!(canonicalize("CTRL++A").unwrap_err(), "hotkey contains an empty token");
    assert_eq!(canonicalize("A").unwrap_err(), "hotkey requires at least one modifier");
    assert_eq!(canonicalize("CTRL+ALT").unwrap_err(), "hotkey requires one primary key");
    assert_eq!(canonicalize("CTRL+A+B").unwrap_err(), "hotkey contains more than one primary key");
    assert_eq!(canonicalize("CTRL+F13").unwrap_err(), "unsupported hotkey token: F13");
    assert_eq!(canonicalize("CTRL+SPACE").unwrap_err(), "unsupported hotkey token: SPACE");
    assert_eq!(canonicalize("cmd+a").unwrap_err(), "unsupported hotkey token: CMD");
    assert_eq!(macos::canonicalize("win+a").unwrap_err(), "unsupported hotkey token: WIN");
}

#[test]
fn canonical_form_is_stable() {
    for chord in ["ctrl+alt+1", "shift+meta+f12", "alt+Z"] {
        let once = canonicalize(chord).unwrap();
        assert_eq!(canonicalize(&once).unwrap(), once);
    }
}

#[test]
fn windows_chords_become_register_hotkey_arguments() {
    assert_eq!(
        parse_hotkey("ctrl+alt+1").unwrap(),
        ParsedHotkey { modifiers: MOD_CONTROL | MOD_ALT | MOD_NOREPEAT, virtual_key: 0x31 }
    );
    assert_eq!(
        parse_hotkey("shift+win+f12").unwrap(),
        ParsedHotkey { modifiers: MOD_SHIFT | MOD_WIN | MOD_NOREPEAT, virtual_key: 0x7B }
    );
    assert_eq!(parse_virtual_key("a"), Ok(0x41));
    assert_eq!(parse_virtual_key("F1"), Ok(0x70));
    assert_eq!(parse_virtual_key("F13"), Err("unsupported hotkey key: F13".to_string()));
    assert_eq!(parse_virtual_key("FX"), Err("invalid function key: FX".to_string()));
    assert_eq!(parse_u32("+12"), Some(12));
    assert_eq!(parse_u32("4294967296"), None);
    assert_eq!(parse_u32(""), None);
}

#[test]
fn reserved_chord_and_primary_key_names() {
    assert!(is_reserved_hotkey("ctrl+alt+shift+l"));
    assert!(!is_reserved_hotkey("CTRL+ALT+L"));
    assert_eq!(availability_query("CTRL+ALT+SHIFT+L"), Ok(None));
    assert!(availability_query("CTRL+ALT+2").unwrap().is_some());
    assert_eq!(primary_key_name(0x41).as_deref(), Some("A"));
    assert_eq!(primary_key_name(0x39).as_deref(), Some("9"));
    assert_eq!(primary_key_name(0x7B).as_deref(), Some("F12"));
    assert_eq!(primary_key_name(0x20), None);
    assert_eq!(captured_chord(true, false, true, false, "K").unwrap(), "CTRL+SHIFT+K");
    assert!(is_supported_primary_key("SPACE", KeyStyle::MacOs));
    assert!(!is_supported_primary_key("SPACE", KeyStyle::Windows));
    assert_eq!(registration_answer(false, Some(1409)), Some(false));
    assert_eq!(registration_answer(false, Some(5)), None);
    assert_eq!(registration_answer(true, None), Some(true));
}

#[test]
fn suggestions_take_the_first_three_free_candidates() {
    let candidates = suggestion_candidates("K");
    assert_eq!(candidates.len(), 9);
    assert_eq!(candidates[0], "CTRL+ALT+SHIFT+K");
    assert_eq!(candidates[2], "ALT+SHIFT+K");

    let mut search = SuggestionSearch::new("K");
    let free = [false, true, false, true, true, true];
    let mut asked = 0;
    while let Some(candidate) = search.next_candidate() {
        let _ = candidate;
        let available = free[asked];
        asked += 1;
        search.record(available);
    }
    assert_eq!(asked, 5);
    assert_eq!(search.found, vec!["CTRL+SHIFT+K", "CTRL+ALT+F9", "CTRL+ALT+F10"]);
}

#[test]
fn dispatcher_debounces_and_routes_presses() {
    let mut dispatcher = HotkeyDispatcher::new(2, LIST_HOTKEY_ID);
    assert_eq!(dispatcher.on_hotkey(1, 1000), HotkeyAction::CopyEntry(0));
    assert_eq!(dispatcher.on_hotkey(1, 1200), HotkeyAction::Ignore);
    assert_eq!(dispatcher.on_hotkey(1, 1500), HotkeyAction::CopyEntry(0));
    assert_eq!(dispatcher.on_hotkey(2, 1500), HotkeyAction::CopyEntry(1));
    assert_eq!(dispatcher.on_hotkey(LIST_HOTKEY_ID, 1500), HotkeyAction::ShowEntryList);
    assert_eq!(dispatcher.on_hotkey(7, 1500), HotkeyAction::Unmatched(7));
    assert_eq!(dispatcher.on_macos_event(99, true, 99, 2000), HotkeyAction::ClearClipboard);
    assert_eq!(dispatcher.on_macos_event(LIST_HOTKEY_ID, false, 99, 2000), HotkeyAction::HideEntryList);
    assert_eq!(dispatcher.on_macos_event(2, false, 99, 2600), HotkeyAction::Ignore);
    assert_eq!(dispatcher.on_macos_event(2, true, 99, 2600), HotkeyAction::CopyEntry(1));
}

#[test]
fn entry_list_and_copy_messages() {
    let entries = vec![
        runtime("CORP\\admin", "CTRL+ALT+1", Some("2026-08-15"), Some("Password expires in 2 days")),
        runtime("LAB\\user", "CTRL+ALT+2", None, None),
    ];
    assert_eq!(
        build_entry_list_overlay(&entries),
        format!("PasswordOut entries:\n{:<20} CTRL+ALT+1\n{:<20} CTRL+ALT+2", "CORP\\admin", "LAB\\user")
    );
    assert_eq!(
        build_macos_entry_list_overlay(&entries),
        format!(
            "PasswordOut entries:\n{:<28} {:<18} expires 2026-08-15 \u{2014} Password expires in 2 days\n{:<28} CTRL+ALT+2",
            "CORP\\admin", "CTRL+ALT+1", "LAB\\user"
        )
    );
    assert_eq!(copied_message(&entries[1]), "Password for LAB\\user copied to clipboard");
    assert_eq!(
        macos_copied_message(&entries[0]),
        "Password for CORP\\admin copied to clipboard\nExpires: 2026-08-15\nPassword expires in 2 days"
    );
    assert_eq!(pad_right("ab", 4), "ab  ");
    assert_eq!(pad_right("abcdef", 4), "abcdef");
}

#[test]
fn registrations_number_entries_from_one() {
    let entry = runtime("CORP\\admin", "ctrl+alt+1", None, None);
    assert_eq!(
        entry_registration(0, &entry),
        Ok((1, ParsedHotkey { modifiers: MOD_CONTROL | MOD_ALT | MOD_NOREPEAT, virtual_key: 0x31 }))
    );
    let bad = runtime("CORP\\admin", "ctrl", None, None);
    assert_eq!(
        entry_registration(4, &bad),
        Err("failed parsing hotkey for 'CORP\\admin': hotkey requires one primary key".to_string())
    );
}

#[test]
fn runtime_entries_carry_account_and_warning() {
    let entries = vec![VaultEntry {
        id: uuid::Uuid::new_v4().into_bytes(),
        domain: "CORP".to_string(),
        username: "admin".to_string(),
        hotkey: "CTRL+ALT+1".to_string(),
        secret: "pw".to_string(),
        expires_on: Some("2026-08-03".to_string()),
    }];
    let today = DayNumber {
        julian_day: time::Date::from_calendar_date(2026, time::Month::August, 1).unwrap().to_julian_day(),
    };
    let runtime = runtime_entries(&entries, today).unwrap();
    assert_eq!(runtime[0].account, "CORP\\admin");
    assert_eq!(runtime[0].expiration_warning.as_deref(), Some("Password expires in 2 days"));
}

#[test]
fn macos_names_and_reserved_chords() {
    assert_eq!(macos::native_display_name("CTRL+ALT+SHIFT+META+P"), "Control+Option+Shift+Command+P");
    assert_eq!(
        macos::registration_chord("shift+alt+ctrl+l").unwrap_err(),
        "hotkey 'CTRL+ALT+SHIFT+L' is reserved for showing the PasswordOut entry list"
    );
    assert_eq!(macos::listener_chord("cmd+1").unwrap(), "META+1");
}

#[test]
fn canonical_spelling_reads_back_as_itself() {
    for input in [" ctrl + shift + a ", "Option+cmd+space", "alt+control+f12", "META+WIN+7"] {
        let style_results = [canonicalize(input), macos::canonicalize(input)];
        for (once, again) in style_results
            .iter()
            .zip([canonicalize as fn(&str) -> Result<String, String>, macos::canonicalize])
        {
            if let Ok(text) = once {
                assert_eq!(again(text).as_ref(), Ok(text));
            }
        }
    }
    assert_eq!(canonicalize(" ctrl + shift + a ").unwrap(), "CTRL+SHIFT+A");
    assert_eq!(macos::canonicalize("Option+cmd+space").unwrap(), "ALT+META+SPACE");
}

#[test]
fn listener_refuses_to_start_without_entries() {
    assert_eq!(check_entries_loaded(&Vec::new()), Err("no PasswordOut entries were loaded".to_string()));
}

#[test]
fn macos_chords_read_into_registered_form() {
    assert_eq!(
        macos::parse_hotkey("cmd+shift+p"),
        Ok(macos::MacHotkey {
            control: false,
            alt: false,
            shift: true,
            meta: true,
            key: macos::MacKey::Letter('P'),
        })
    );
    assert_eq!(
        macos::parse_hotkey(macos::CLEAR_HOTKEY).map(|hotkey| hotkey.key),
        Ok(macos::MacKey::Space)
    );
    assert_eq!(
        macos::parse_hotkey("ctrl+option+f12"),
        Ok(macos::MacHotkey {
            control: true,
            alt: true,
            shift: false,
            meta: false,
            key: macos::MacKey::Function(12),
        })
    );
    assert_eq!(macos::parse_hotkey("ctrl+7").map(|hotkey| hotkey.key), Ok(macos::MacKey::Digit('7')));
    assert_eq!(macos::parse_hotkey("P"), Err("hotkey requires at least one modifier".to_string()));
    assert_eq!(macos::mac_key("F13"), None);
    assert_eq!(macos::mac_key("SPACE"), Some(macos::MacKey::Space));
}
