//! Global hotkeys: the canonical form of a key chord, the Windows and macOS
//! spellings of it, and the decisions of the hotkey listener.
use vstd::prelude::*;

use crate::text::{
    ascii_uppercase, chars_of, str_eq, string_from_chars, to_ascii_uppercase, trim_text, trimmed,
};

pub mod canonical_form;
pub mod clipboard_guard;
pub mod listener;
pub mod macos;
pub mod windows;

verus! {

/// An entry as the listener holds it.
#[derive(Debug, Clone)]
pub struct RuntimeEntry {
    /// Human-facing account identifier in DOMAIN\username form.
    pub account: String,
    pub hotkey: String,
    pub secret: String,
    pub expires_on: Option<String>,
    pub expiration_warning: Option<String>,
}

/// Whose names for the modifier keys a chord accepts.
#[derive(Debug, Clone, Copy, PartialEq, Eq, Structural)]
pub enum KeyStyle {
    /// WIN and WINDOWS name the Windows key; primary keys are A-Z, 0-9 and F1-F12.
    Windows,
    /// CMD and COMMAND name the Command key; SPACE is also a primary key.
    MacOs,
}

/// The parts of a text between its `+` signs, as `str::split('+')` gives
/// them (one more part than there are `+` signs).
pub open spec fn split_plus(s: Seq<char>) -> Seq<Seq<char>>
    decreases s.len(),
{
    if s.len() == 0 {
        seq![Seq::<char>::empty()]
    } else {
        let parts = split_plus(s.drop_last());
        if s.last() == '+' {
            parts.push(Seq::empty())
        } else {
            parts.update(parts.len() - 1, parts.last().push(s.last()))
        }
    }
}

pub(crate) proof fn lemma_split_plus_nonempty(s: Seq<char>)
    ensures
        split_plus(s).len() >= 1,
    decreases s.len(),
{
    if s.len() > 0 {
        lemma_split_plus_nonempty(s.drop_last());
    }
}

/// A chord token: trimmed and in ASCII upper case.
pub open spec fn normalized(part: Seq<char>) -> Seq<char> {
    ascii_uppercase(trimmed(part))
}

pub open spec fn is_function_key(token: Seq<char>) -> bool {
    ||| token == "F1"@
    ||| token == "F2"@
    ||| token == "F3"@
    ||| token == "F4"@
    ||| token == "F5"@
    ||| token == "F6"@
    ||| token == "F7"@
    ||| token == "F8"@
    ||| token == "F9"@
    ||| token == "F10"@
    ||| token == "F11"@
    ||| token == "F12"@
}

pub open spec fn is_ascii_alphanumeric(c: char) -> bool {
    ('0' <= c <= '9') || ('A' <= c <= 'Z') || ('a' <= c <= 'z')
}

/// Primary keys: one ASCII letter or digit, F1-F12, and on macOS SPACE.
pub open spec fn is_primary_key(token: Seq<char>, style: KeyStyle) -> bool {
    ||| (token.len() == 1 && is_ascii_alphanumeric(token[0]))
    ||| is_function_key(token)
    ||| (style == KeyStyle::MacOs && token == "SPACE"@)
}

pub open spec fn is_control_name(token: Seq<char>) -> bool {
    token == "CTRL"@ || token == "CONTROL"@
}

pub open spec fn is_alt_name(token: Seq<char>) -> bool {
    token == "ALT"@ || token == "OPTION"@
}

pub open spec fn is_meta_name(token: Seq<char>, style: KeyStyle) -> bool {
    match style {
        KeyStyle::Windows => token == "WIN"@ || token == "WINDOWS"@ || token == "SUPER"@ || token
            == "META"@,
        KeyStyle::MacOs => token == "CMD"@ || token == "COMMAND"@ || token == "SUPER"@ || token
            == "META"@,
    }
}

/// The modifiers and primary key read so far from a chord.
pub struct ChordView {
    pub control: bool,
    pub alt: bool,
    pub shift: bool,
    pub meta: bool,
    pub key: Option<Seq<char>>,
}

/// Reads one more token of a chord.
pub open spec fn chord_step(chord: ChordView, token: Seq<char>, style: KeyStyle) -> Result<
    ChordView,
    Seq<char>,
> {
    if token.len() == 0 {
        Err("hotkey contains an empty token"@)
    } else if is_control_name(token) {
        Ok(ChordView { control: true, ..chord })
    } else if is_alt_name(token) {
        Ok(ChordView { alt: true, ..chord })
    } else if token == "SHIFT"@ {
        Ok(ChordView { shift: true, ..chord })
    } else if is_meta_name(token, style) {
        Ok(ChordView { meta: true, ..chord })
    } else if is_primary_key(token, style) {
        if chord.key is Some {
            Err("hotkey contains more than one primary key"@)
        } else {
            Ok(ChordView { key: Some(token), ..chord })
        }
    } else {
        Err("unsupported hotkey token: "@ + token)
    }
}

pub open spec fn empty_chord() -> ChordView {
    ChordView { control: false, alt: false, shift: false, meta: false, key: None }
}

/// Reads the normalized tokens of a chord in order; the first refusal ends it.
pub open spec fn chord_scan(parts: Seq<Seq<char>>, style: KeyStyle) -> Result<ChordView, Seq<char>>
    decreases parts.len(),
{
    if parts.len() == 0 {
        Ok(empty_chord())
    } else {
        match chord_scan(parts.drop_last(), style) {
            Ok(chord) => chord_step(chord, normalized(parts.last()), style),
            Err(problem) => Err(problem),
        }
    }
}

/// Once a prefix of the tokens is refused, the whole chord is refused for
/// the same reason.
proof fn lemma_scan_error_persists(parts: Seq<Seq<char>>, k: int, style: KeyStyle)
    requires
        0 <= k <= parts.len(),
        chord_scan(parts.take(k), style) is Err,
    ensures
        chord_scan(parts, style) == chord_scan(parts.take(k), style),
    decreases parts.len() - k,
{
    if k == parts.len() {
        assert(parts.take(k) =~= parts);
    } else {
        let shorter = parts.drop_last();
        assert(shorter.take(k) =~= parts.take(k));
        lemma_scan_error_persists(shorter, k, style);
    }
}

/// The canonical spelling of a complete chord: CTRL, ALT, SHIFT and META in
/// that order, then the primary key, joined by `+`.
pub open spec fn chord_text(chord: ChordView, key: Seq<char>) -> Seq<char> {
    (if chord.control {
        "CTRL+"@
    } else {
        Seq::empty()
    }) + (if chord.alt {
        "ALT+"@
    } else {
        Seq::empty()
    }) + (if chord.shift {
        "SHIFT+"@
    } else {
        Seq::empty()
    }) + (if chord.meta {
        "META+"@
    } else {
        Seq::empty()
    }) + key
}

/// What a chord reads as: its modifiers and primary key, or why it is refused.
pub open spec fn chord_of(input: Seq<char>, style: KeyStyle) -> Result<ChordView, Seq<char>> {
    match chord_scan(split_plus(input), style) {
        Err(problem) => Err(problem),
        Ok(chord) => if !chord.control && !chord.alt && !chord.shift && !chord.meta {
            Err("hotkey requires at least one modifier"@)
        } else if chord.key is None {
            Err("hotkey requires one primary key"@)
        } else {
            Ok(chord)
        },
    }
}

/// The canonical spelling of a chord, or why it is refused.
pub open spec fn canonical_chord(input: Seq<char>, style: KeyStyle) -> Result<
    Seq<char>,
    Seq<char>,
> {
    match chord_of(input, style) {
        Ok(chord) => Ok(chord_text(chord, chord.key.unwrap())),
        Err(problem) => Err(problem),
    }
}

/// The text views of a list of strings.
pub open spec fn texts(strings: Seq<String>) -> Seq<Seq<char>> {
    strings.map_values(|s: String| s@)
}

/// Splits `s` at every `+`.
pub fn split_on_plus(s: &str) -> (parts: Vec<String>)
    ensures
        texts(parts@) == split_plus(s@),
{
    let chars = chars_of(s);
    let mut parts: Vec<String> = Vec::new();
    let mut current: Vec<char> = Vec::new();
    let mut index: usize = 0;
    assert(s@.take(0) =~= Seq::<char>::empty());
    while index < chars.len()
        invariant
            chars@ == s@,
            index <= chars@.len(),
            texts(parts@).push(current@) == split_plus(s@.take(index as int)),
        decreases chars.len() - index,
    {
        let c = chars[index];
        let ghost before = texts(parts@).push(current@);
        proof {
            let prefix = s@.take(index + 1);
            assert(prefix.drop_last() =~= s@.take(index as int));
            assert(prefix.last() == c);
        }
        if c == '+' {
            let piece = string_from_chars(current.as_slice());
            parts.push(piece);
            current = Vec::new();
            assert(texts(parts@).push(current@) =~= before.push(Seq::empty()));
        } else {
            current.push(c);
            assert(texts(parts@).push(current@) =~= before.update(
                before.len() - 1,
                before.last().push(c),
            ));
        }
        index = index + 1;
    }
    let last = string_from_chars(current.as_slice());
    parts.push(last);
    assert(s@.take(chars@.len() as int) =~= s@);
    assert(texts(parts@) =~= split_plus(s@));
    parts
}

/// Normalizes one chord token: trim, then ASCII upper case.
fn normalize_token(part: &str) -> (token: String)
    ensures
        token@ == normalized(part@),
{
    let trimmed_part = trim_text(part);
    to_ascii_uppercase(trimmed_part.as_str())
}

fn is_alphanumeric_char(c: char) -> (r: bool)
    ensures
        r == is_ascii_alphanumeric(c),
{
    ('0' <= c && c <= '9') || ('A' <= c && c <= 'Z') || ('a' <= c && c <= 'z')
}

fn function_key(token: &str) -> (r: bool)
    ensures
        r == is_function_key(token@),
{
    str_eq(token, "F1") || str_eq(token, "F2") || str_eq(token, "F3") || str_eq(token, "F4")
        || str_eq(token, "F5") || str_eq(token, "F6") || str_eq(token, "F7") || str_eq(
        token,
        "F8",
    ) || str_eq(token, "F9") || str_eq(token, "F10") || str_eq(token, "F11") || str_eq(
        token,
        "F12",
    )
}

/// Whether `token` names a primary key of the style.
pub fn is_supported_primary_key(token: &str, style: KeyStyle) -> (r: bool)
    ensures
        r == is_primary_key(token@, style),
{
    let chars = chars_of(token);
    if chars.len() == 1 && is_alphanumeric_char(chars[0]) {
        return true;
    }
    if function_key(token) {
        return true;
    }
    style == KeyStyle::MacOs && str_eq(token, "SPACE")
}

fn is_meta(token: &str, style: KeyStyle) -> (r: bool)
    ensures
        r == is_meta_name(token@, style),
{
    match style {
        KeyStyle::Windows => str_eq(token, "WIN") || str_eq(token, "WINDOWS") || str_eq(
            token,
            "SUPER",
        ) || str_eq(token, "META"),
        KeyStyle::MacOs => str_eq(token, "CMD") || str_eq(token, "COMMAND") || str_eq(
            token,
            "SUPER",
        ) || str_eq(token, "META"),
    }
}

/// A chord's modifiers and its primary key.
pub struct Chord {
    pub control: bool,
    pub alt: bool,
    pub shift: bool,
    pub meta: bool,
    pub key: String,
}

impl Chord {
    pub open spec fn matches_view(&self, chord: ChordView) -> bool {
        &&& self.control == chord.control
        &&& self.alt == chord.alt
        &&& self.shift == chord.shift
        &&& self.meta == chord.meta
        &&& chord.key == Some(self.key@)
    }
}

/// Reads a chord such as "ctrl + alt + 1": `+`-separated tokens, trimmed
/// and compared in ASCII upper case; at least one modifier and exactly one
/// primary key.
pub fn read_chord(input: &str, style: KeyStyle) -> (result: Result<Chord, String>)
    ensures
        match chord_of(input@, style) {
            Ok(chord) => result matches Ok(read) && read.matches_view(chord),
            Err(problem) => result matches Err(message) && message@ == problem,
        },
{
    let parts = split_on_plus(input);
    let mut control = false;
    let mut alt = false;
    let mut shift = false;
    let mut meta = false;
    let mut key: Option<String> = None;
    let mut index: usize = 0;
    proof {
        lemma_split_plus_nonempty(input@);
        assert(split_plus(input@).take(0) =~= Seq::<Seq<char>>::empty());
    }
    while index < parts.len()
        invariant
            texts(parts@) == split_plus(input@),
            index <= parts@.len(),
            chord_scan(split_plus(input@).take(index as int), style) == Ok::<
                ChordView,
                Seq<char>,
            >(
                ChordView {
                    control,
                    alt,
                    shift,
                    meta,
                    key: match key {
                        Some(k) => Some(k@),
                        None => None,
                    },
                },
            ),
        decreases parts@.len() - index,
    {
        let ghost prefix = split_plus(input@).take(index + 1);
        proof {
            assert(prefix.drop_last() =~= split_plus(input@).take(index as int));
            assert(prefix.last() == parts@[index as int]@);
        }
        let token = normalize_token(parts[index].as_str());
        if token.unicode_len() == 0 {
            proof {
                lemma_scan_error_persists(split_plus(input@), index + 1, style);
            }
            return Err(String::from_str("hotkey contains an empty token"));
        }
        if str_eq(token.as_str(), "CTRL") || str_eq(token.as_str(), "CONTROL") {
            control = true;
        } else if str_eq(token.as_str(), "ALT") || str_eq(token.as_str(), "OPTION") {
            alt = true;
        } else if str_eq(token.as_str(), "SHIFT") {
            shift = true;
        } else if is_meta(token.as_str(), style) {
            meta = true;
        } else if is_supported_primary_key(token.as_str(), style) {
            if key.is_some() {
                proof {
                    lemma_scan_error_persists(split_plus(input@), index + 1, style);
                }
                return Err(String::from_str("hotkey contains more than one primary key"));
            }
            key = Some(token);
        } else {
            let mut message = String::from_str("unsupported hotkey token: ");
            message.append(token.as_str());
            proof {
                lemma_scan_error_persists(split_plus(input@), index + 1, style);
            }
            return Err(message);
        }
        index = index + 1;
    }
    assert(split_plus(input@).take(parts@.len() as int) =~= split_plus(input@));
    if !control && !alt && !shift && !meta {
        return Err(String::from_str("hotkey requires at least one modifier"));
    }
    match key {
        Some(key) => Ok(Chord { control, alt, shift, meta, key }),
        None => Err(String::from_str("hotkey requires one primary key")),
    }
}

/// The canonical spelling of a chord that has been read.
pub fn chord_spelling(chord: &Chord) -> (text: String)
    ensures
        text@ == chord_text(
            ChordView {
                control: chord.control,
                alt: chord.alt,
                shift: chord.shift,
                meta: chord.meta,
                key: Some(chord.key@),
            },
            chord.key@,
        ),
{
    let mut text = String::new();
    assert(text@ =~= Seq::<char>::empty());
    if chord.control {
        text.append("CTRL+");
    }
    if chord.alt {
        text.append("ALT+");
    }
    if chord.shift {
        text.append("SHIFT+");
    }
    if chord.meta {
        text.append("META+");
    }
    text.append(chord.key.as_str());
    text
}

/// The canonical spelling of a chord in the given style, or why it is
/// refused.
pub fn canonicalize_chord(input: &str, style: KeyStyle) -> (result: Result<String, String>)
    ensures
        match canonical_chord(input@, style) {
            Ok(text) => result matches Ok(spelled) && spelled@ == text,
            Err(problem) => result matches Err(message) && message@ == problem,
        },
{
    match read_chord(input, style) {
        Ok(chord) => Ok(chord_spelling(&chord)),
        Err(error) => Err(error),
    }
}

} // verus!
