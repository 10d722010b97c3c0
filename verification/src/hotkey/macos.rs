//! macOS hotkeys: the chord names macOS accepts and how chords are shown
//! there.
use vstd::prelude::*;

use crate::hotkey::{
    canonical_chord, canonicalize_chord, chord_of, read_chord, split_on_plus, split_plus, texts,
    KeyStyle,
};
use crate::text::{chars_of, eq_ascii_ci, eq_ignore_ascii_case, join2, join3, str_eq};

verus! {

/// The chord that shows the entry list; no entry may use it.
pub const LIST_HOTKEY: &'static str = "CTRL+ALT+SHIFT+L";

/// The chord that clears an active secret from the clipboard.
pub const CLEAR_HOTKEY: &'static str = "CTRL+ALT+SPACE";

/// The canonical macOS spelling of a chord ("cmd+shift+p" is
/// "SHIFT+META+P"), or why it is refused.
pub fn canonicalize(input: &str) -> (result: Result<String, String>)
    ensures
        match canonical_chord(input@, KeyStyle::MacOs) {
            Ok(text) => result matches Ok(spelled) && spelled@ == text,
            Err(problem) => result matches Err(message) && message@ == problem,
        },
{
    canonicalize_chord(input, KeyStyle::MacOs)
}

/// The key a macOS chord ends in, as the global hotkey service names its
/// key codes.
#[derive(Debug, Clone, Copy, PartialEq, Eq, Structural)]
pub enum MacKey {
    /// `KeyA` to `KeyZ`.
    Letter(char),
    /// `Digit0` to `Digit9`.
    Digit(char),
    /// `F1` to `F12`.
    Function(u8),
    Space,
}

/// A chord in the form the global hotkey service registers: its modifiers
/// (`META` is the command key) and its key.
#[derive(Debug, Clone, Copy, PartialEq, Eq, Structural)]
pub struct MacHotkey {
    pub control: bool,
    pub alt: bool,
    pub shift: bool,
    pub meta: bool,
    pub key: MacKey,
}

/// The number of a function-key token, `F1` to `F12`.
pub open spec fn function_number(token: Seq<char>) -> Option<u8> {
    if token == "F1"@ {
        Some(1)
    } else if token == "F2"@ {
        Some(2)
    } else if token == "F3"@ {
        Some(3)
    } else if token == "F4"@ {
        Some(4)
    } else if token == "F5"@ {
        Some(5)
    } else if token == "F6"@ {
        Some(6)
    } else if token == "F7"@ {
        Some(7)
    } else if token == "F8"@ {
        Some(8)
    } else if token == "F9"@ {
        Some(9)
    } else if token == "F10"@ {
        Some(10)
    } else if token == "F11"@ {
        Some(11)
    } else if token == "F12"@ {
        Some(12)
    } else {
        None
    }
}

/// The key code of a canonical key token, if it has one.
pub open spec fn mac_key_of(token: Seq<char>) -> Option<MacKey> {
    if token.len() == 1 {
        if 'A' <= token[0] <= 'Z' {
            Some(MacKey::Letter(token[0]))
        } else if '0' <= token[0] <= '9' {
            Some(MacKey::Digit(token[0]))
        } else {
            None
        }
    } else if token == "SPACE"@ {
        Some(MacKey::Space)
    } else {
        match function_number(token) {
            Some(number) => Some(MacKey::Function(number)),
            None => None,
        }
    }
}

/// The registered form of a chord: its canonical modifiers and key, or why
/// it has none.
pub open spec fn parsed_mac_hotkey(input: Seq<char>) -> Result<MacHotkey, Seq<char>> {
    match chord_of(input, KeyStyle::MacOs) {
        Err(problem) => Err(problem),
        Ok(chord) => match mac_key_of(chord.key.unwrap()) {
            None => Err("unsupported canonical hotkey token: "@ + chord.key.unwrap()),
            Some(key) => Ok(
                MacHotkey {
                    control: chord.control,
                    alt: chord.alt,
                    shift: chord.shift,
                    meta: chord.meta,
                    key,
                },
            ),
        },
    }
}

fn function_key(token: &str) -> (number: Option<u8>)
    ensures
        number == function_number(token@),
{
    if str_eq(token, "F1") {
        Some(1)
    } else if str_eq(token, "F2") {
        Some(2)
    } else if str_eq(token, "F3") {
        Some(3)
    } else if str_eq(token, "F4") {
        Some(4)
    } else if str_eq(token, "F5") {
        Some(5)
    } else if str_eq(token, "F6") {
        Some(6)
    } else if str_eq(token, "F7") {
        Some(7)
    } else if str_eq(token, "F8") {
        Some(8)
    } else if str_eq(token, "F9") {
        Some(9)
    } else if str_eq(token, "F10") {
        Some(10)
    } else if str_eq(token, "F11") {
        Some(11)
    } else if str_eq(token, "F12") {
        Some(12)
    } else {
        None
    }
}

/// The key code of a canonical key token.
pub fn mac_key(token: &str) -> (key: Option<MacKey>)
    ensures
        key == mac_key_of(token@),
{
    let chars = chars_of(token);
    if chars.len() == 1 {
        let c = chars[0];
        if 'A' <= c && c <= 'Z' {
            return Some(MacKey::Letter(c));
        }
        if '0' <= c && c <= '9' {
            return Some(MacKey::Digit(c));
        }
        return None;
    }
    if str_eq(token, "SPACE") {
        return Some(MacKey::Space);
    }
    match function_key(token) {
        Some(number) => Some(MacKey::Function(number)),
        None => None,
    }
}

/// Reads a chord into the form the global hotkey service registers.
pub fn parse_hotkey(input: &str) -> (result: Result<MacHotkey, String>)
    ensures
        match parsed_mac_hotkey(input@) {
            Ok(hotkey) => result == Ok::<MacHotkey, String>(hotkey),
            Err(problem) => result matches Err(message) && message@ == problem,
        },
{
    let chord = match read_chord(input, KeyStyle::MacOs) {
        Ok(chord) => chord,
        Err(error) => {
            return Err(error);
        },
    };
    let key = match mac_key(chord.key.as_str()) {
        Some(key) => key,
        None => {
            return Err(join2("unsupported canonical hotkey token: ", chord.key.as_str()));
        },
    };
    Ok(MacHotkey { control: chord.control, alt: chord.alt, shift: chord.shift, meta: chord.meta, key })
}

/// The macOS name of a canonical token.
pub open spec fn native_token(token: Seq<char>) -> Seq<char> {
    if token == "CTRL"@ {
        "Control"@
    } else if token == "ALT"@ {
        "Option"@
    } else if token == "SHIFT"@ {
        "Shift"@
    } else if token == "META"@ {
        "Command"@
    } else {
        token
    }
}

/// The parts joined by `+`.
pub open spec fn join_plus(parts: Seq<Seq<char>>) -> Seq<char>
    decreases parts.len(),
{
    if parts.len() == 0 {
        Seq::empty()
    } else if parts.len() == 1 {
        parts[0]
    } else {
        join_plus(parts.drop_last()) + "+"@ + parts.last()
    }
}

pub open spec fn native_name(canonical: Seq<char>) -> Seq<char> {
    join_plus(split_plus(canonical).map_values(|token: Seq<char>| native_token(token)))
}

fn native_token_text(token: &str) -> (name: String)
    ensures
        name@ == native_token(token@),
{
    if str_eq(token, "CTRL") {
        String::from_str("Control")
    } else if str_eq(token, "ALT") {
        String::from_str("Option")
    } else if str_eq(token, "SHIFT") {
        String::from_str("Shift")
    } else if str_eq(token, "META") {
        String::from_str("Command")
    } else {
        String::from_str(token)
    }
}

/// How macOS shows a canonical chord: "CTRL+META+P" is "Control+Command+P".
pub fn native_display_name(canonical: &str) -> (name: String)
    ensures
        name@ == native_name(canonical@),
{
    let parts = split_on_plus(canonical);
    let ghost mapped = split_plus(canonical@).map_values(|token: Seq<char>| native_token(token));
    let mut name = String::new();
    let mut index: usize = 0;
    assert(name@ =~= join_plus(mapped.take(0)));
    while index < parts.len()
        invariant
            texts(parts@) == split_plus(canonical@),
            mapped == split_plus(canonical@).map_values(|token: Seq<char>| native_token(token)),
            index <= parts@.len(),
            name@ == join_plus(mapped.take(index as int)),
        decreases parts@.len() - index,
    {
        let token = native_token_text(parts[index].as_str());
        proof {
            let prefix = mapped.take(index + 1);
            assert(prefix.drop_last() =~= mapped.take(index as int));
            assert(prefix.last() == native_token(parts@[index as int]@));
        }
        if index > 0 {
            name.append("+");
        } else {
            assert(name@ =~= Seq::<char>::empty());
        }
        name.append(token.as_str());
        index = index + 1;
    }
    assert(mapped.take(parts@.len() as int) =~= mapped);
    name
}

pub open spec fn reserved_message() -> Seq<char> {
    "hotkey '"@ + LIST_HOTKEY@ + "' is reserved for showing the PasswordOut entry list"@
}

/// The chord macOS is asked to register, in canonical form: refused when it
/// cannot be read or is the entry-list chord.
pub fn registration_chord(input: &str) -> (result: Result<String, String>)
    ensures
        match canonical_chord(input@, KeyStyle::MacOs) {
            Ok(text) => if eq_ascii_ci(text, LIST_HOTKEY@) {
                result matches Err(message) && message@ == reserved_message()
            } else {
                result matches Ok(spelled) && spelled@ == text
            },
            Err(problem) => result matches Err(message) && message@ == problem,
        },
{
    let canonical = match canonicalize(input) {
        Ok(text) => text,
        Err(error) => {
            return Err(error);
        },
    };
    if eq_ignore_ascii_case(canonical.as_str(), LIST_HOTKEY) {
        return Err(
            join3("hotkey '", LIST_HOTKEY, "' is reserved for showing the PasswordOut entry list"),
        );
    }
    Ok(canonical)
}

/// The listener refuses an entry whose chord is the entry-list chord.
pub fn listener_chord(hotkey: &str) -> (result: Result<String, String>)
    ensures
        match canonical_chord(hotkey@, KeyStyle::MacOs) {
            Ok(text) => if eq_ascii_ci(text, LIST_HOTKEY@) {
                result matches Err(message) && message@ == "hotkey '"@ + LIST_HOTKEY@
                    + "' is reserved for showing the entry list"@
            } else {
                result matches Ok(spelled) && spelled@ == text
            },
            Err(problem) => result matches Err(message) && message@ == problem,
        },
{
    let canonical = match canonicalize(hotkey) {
        Ok(text) => text,
        Err(error) => {
            return Err(error);
        },
    };
    if eq_ignore_ascii_case(canonical.as_str(), LIST_HOTKEY) {
        return Err(join3("hotkey '", LIST_HOTKEY, "' is reserved for showing the entry list"));
    }
    Ok(canonical)
}

} // verus!
