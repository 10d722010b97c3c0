//! Windows hotkeys: the chord names Windows accepts, and the modifier flags
//! and virtual-key codes `RegisterHotKey` takes.
use vstd::prelude::*;

use crate::hotkey::{
    canonical_chord, canonicalize_chord, chord_of, is_ascii_alphanumeric, read_chord, KeyStyle,
};
use crate::text::{
    ascii_upper, chars_of, decimal_string, eq_ascii_ci, eq_ignore_ascii_case, join2, join3,
};

verus! {

/// Win32 `MOD_ALT`.
pub const MOD_ALT: u32 = 0x0001;

/// Win32 `MOD_CONTROL`.
pub const MOD_CONTROL: u32 = 0x0002;

/// Win32 `MOD_SHIFT`.
pub const MOD_SHIFT: u32 = 0x0004;

/// Win32 `MOD_WIN`.
pub const MOD_WIN: u32 = 0x0008;

/// Win32 `MOD_NOREPEAT`.
pub const MOD_NOREPEAT: u32 = 0x4000;

/// Win32 `VK_F1`; F2 to F12 follow it.
pub const VK_F1: u32 = 0x70;

/// Registration id of the entry-list hotkey.
pub const LIST_HOTKEY_ID: i32 = 0x4CC2;

/// Registration id used while testing whether a chord is free.
pub const TEST_HOTKEY_ID: i32 = 0x4CC1;

/// The chord that shows the entry list; no entry may use it.
pub const LIST_HOTKEY: &'static str = "CTRL+ALT+SHIFT+L";

/// Windows error code of a hotkey that is already registered.
pub const ERROR_HOTKEY_ALREADY_REGISTERED: i32 = 1409;

/// A chord as `RegisterHotKey` takes it.
#[derive(Debug, Clone, Copy, PartialEq, Eq, Structural)]
pub struct ParsedHotkey {
    pub modifiers: u32,
    pub virtual_key: u32,
}

/// The canonical Windows spelling of a chord ("ctrl+alt+1" is
/// "CTRL+ALT+1"), or why it is refused.
pub fn canonicalize(input: &str) -> (result: Result<String, String>)
    ensures
        match canonical_chord(input@, KeyStyle::Windows) {
            Ok(text) => result matches Ok(spelled) && spelled@ == text,
            Err(problem) => result matches Err(message) && message@ == problem,
        },
{
    canonicalize_chord(input, KeyStyle::Windows)
}

pub open spec fn is_digit(c: char) -> bool {
    '0' <= c <= '9'
}

/// The value of a string of decimal digits.
pub open spec fn digits_value(s: Seq<char>) -> nat
    decreases s.len(),
{
    if s.len() == 0 {
        0
    } else {
        digits_value(s.drop_last()) * 10 + ((s.last() as u32) - 48) as nat
    }
}

/// The text of a number after an optional leading `+`.
pub open spec fn unsigned_digits(s: Seq<char>) -> Seq<char> {
    if s.len() > 0 && s[0] == '+' {
        s.drop_first()
    } else {
        s
    }
}

pub open spec fn all_digits(s: Seq<char>) -> bool {
    forall|i: int| 0 <= i < s.len() ==> is_digit(#[trigger] s[i])
}

/// `u32::from_str`: an optional `+`, then one or more decimal digits, with
/// a value that fits.
pub open spec fn parsed_u32(s: Seq<char>) -> Option<u32> {
    let digits = unsigned_digits(s);
    if digits.len() == 0 || !all_digits(digits) || digits_value(digits) > u32::MAX {
        None
    } else {
        Some(digits_value(digits) as u32)
    }
}

proof fn lemma_digits_value_grows(s: Seq<char>, i: int)
    requires
        0 <= i <= s.len(),
        forall|k: int| 0 <= k < s.len() ==> is_digit(#[trigger] s[k]),
    ensures
        digits_value(s.take(i)) <= digits_value(s),
    decreases s.len() - i,
{
    if i < s.len() {
        lemma_digits_value_grows(s, i + 1);
        let longer = s.take(i + 1);
        assert(longer.drop_last() =~= s.take(i));
        assert(is_digit(longer.last()));
    } else {
        assert(s.take(i) =~= s);
    }
}

/// Parses a `u32` as `str::parse::<u32>` does.
pub fn parse_u32(s: &str) -> (value: Option<u32>)
    ensures
        value == parsed_u32(s@),
{
    let chars = chars_of(s);
    let mut start: usize = 0;
    if chars.len() > 0 && chars[0] == '+' {
        start = 1;
    }
    let ghost digits = unsigned_digits(s@);
    assert(digits =~= s@.skip(start as int));
    if start == chars.len() {
        return None;
    }
    let mut value: u64 = 0;
    let mut index: usize = start;
    assert(digits.take(0) =~= Seq::<char>::empty());
    while index < chars.len()
        invariant
            chars@ == s@,
            start <= index <= chars@.len(),
            digits == s@.skip(start as int),
            digits == unsigned_digits(s@),
            value == digits_value(digits.take(index - start)),
            value <= u32::MAX,
            forall|k: int| 0 <= k < index - start ==> is_digit(#[trigger] digits[k]),
        decreases chars.len() - index,
    {
        let c = chars[index];
        let ghost taken = digits.take(index - start + 1);
        assert(taken.drop_last() =~= digits.take(index - start));
        assert(taken.last() == c);
        assert(digits[index - start] == c);
        if !('0' <= c && c <= '9') {
            assert(!is_digit(digits[index - start]));
            assert(!all_digits(digits));
            return None;
        }
        let next: u64 = value * 10 + ((c as u32) - 48) as u64;
        assert(digits_value(taken) == next);
        if next > 0xFFFF_FFFF {
            proof {
                if all_digits(digits) {
                    lemma_digits_value_grows(digits, index - start + 1);
                }
            }
            return None;
        }
        value = next;
        index = index + 1;
    }
    assert(digits.take(index - start) =~= digits);
    Some(value as u32)
}

/// The virtual-key code of a primary key: an ASCII letter or digit is its
/// upper-case character code, F1-F12 follow `VK_F1`.
pub open spec fn virtual_key_of(token: Seq<char>) -> Result<u32, Seq<char>> {
    if token.len() == 1 && (token[0] as u32) < 128 && is_ascii_alphanumeric(token[0]) {
        Ok(ascii_upper(token[0]) as u32)
    } else if token.len() > 0 && token[0] == 'F' {
        match parsed_u32(token.drop_first()) {
            None => Err("invalid function key: "@ + token),
            Some(number) => if 1 <= number <= 12 {
                Ok((VK_F1 + number - 1) as u32)
            } else {
                Err("unsupported hotkey key: "@ + token)
            },
        }
    } else {
        Err("unsupported hotkey key: "@ + token)
    }
}

/// The virtual-key code of a primary-key token, or why it has none.
pub fn parse_virtual_key(token: &str) -> (result: Result<u32, String>)
    ensures
        match virtual_key_of(token@) {
            Ok(code) => result == Ok::<u32, String>(code),
            Err(problem) => result matches Err(message) && message@ == problem,
        },
{
    let chars = chars_of(token);
    if chars.len() == 1 && (chars[0] as u32) < 128 && is_alphanumeric(chars[0]) {
        let c = chars[0];
        let upper = if 'a' <= c && c <= 'z' {
            let code: u8 = (c as u8) - 32;
            code as char
        } else {
            c
        };
        return Ok(upper as u32);
    }
    if chars.len() > 0 && chars[0] == 'F' {
        let number_text = crate::text::string_from_chars(&chars.as_slice()[1..chars.len()]);
        assert(number_text@ =~= token@.drop_first());
        match parse_u32(number_text.as_str()) {
            None => {
                return Err(join2("invalid function key: ", token));
            },
            Some(number) => {
                if 1 <= number && number <= 12 {
                    return Ok(VK_F1 + number - 1);
                }
            },
        }
    }
    Err(join2("unsupported hotkey key: ", token))
}

fn is_alphanumeric(c: char) -> (r: bool)
    ensures
        r == is_ascii_alphanumeric(c),
{
    ('0' <= c && c <= '9') || ('A' <= c && c <= 'Z') || ('a' <= c && c <= 'z')
}

/// The `RegisterHotKey` form of a chord: the modifier flags (with
/// `MOD_NOREPEAT`) and the primary key's virtual-key code.
pub open spec fn parsed_hotkey(input: Seq<char>) -> Result<ParsedHotkey, Seq<char>> {
    match chord_of(input, KeyStyle::Windows) {
        Err(problem) => Err(problem),
        Ok(chord) => match virtual_key_of(chord.key.unwrap()) {
            Err(problem) => Err(problem),
            Ok(code) => Ok(
                ParsedHotkey {
                    modifiers: ((if chord.control {
                        MOD_CONTROL
                    } else {
                        0
                    }) + (if chord.alt {
                        MOD_ALT
                    } else {
                        0
                    }) + (if chord.shift {
                        MOD_SHIFT
                    } else {
                        0
                    }) + (if chord.meta {
                        MOD_WIN
                    } else {
                        0
                    }) + MOD_NOREPEAT) as u32,
                    virtual_key: code,
                },
            ),
        },
    }
}

/// Reads a chord into the form `RegisterHotKey` takes.
pub fn parse_hotkey(input: &str) -> (result: Result<ParsedHotkey, String>)
    ensures
        match parsed_hotkey(input@) {
            Ok(parsed) => result == Ok::<ParsedHotkey, String>(parsed),
            Err(problem) => result matches Err(message) && message@ == problem,
        },
{
    let chord = match read_chord(input, KeyStyle::Windows) {
        Ok(chord) => chord,
        Err(error) => {
            return Err(error);
        },
    };
    let virtual_key = match parse_virtual_key(chord.key.as_str()) {
        Ok(code) => code,
        Err(error) => {
            return Err(error);
        },
    };
    let mut modifiers: u32 = 0;
    if chord.control {
        modifiers = modifiers + MOD_CONTROL;
    }
    if chord.alt {
        modifiers = modifiers + MOD_ALT;
    }
    if chord.shift {
        modifiers = modifiers + MOD_SHIFT;
    }
    if chord.meta {
        modifiers = modifiers + MOD_WIN;
    }
    Ok(ParsedHotkey { modifiers: modifiers + MOD_NOREPEAT, virtual_key })
}

/// Whether a chord is the one reserved for the entry list (ASCII case
/// ignored).
pub fn is_reserved_hotkey(hotkey: &str) -> (reserved: bool)
    ensures
        reserved == eq_ascii_ci(hotkey@, LIST_HOTKEY@),
{
    eq_ignore_ascii_case(hotkey, LIST_HOTKEY)
}

/// The name of a captured primary key: A-Z and 0-9 by their character,
/// F1-F12 by `F` and their number.
pub open spec fn primary_key_label(virtual_key: i32) -> Option<Seq<char>> {
    if (65 <= virtual_key <= 90) || (48 <= virtual_key <= 57) {
        Some(seq![virtual_key as char])
    } else if VK_F1 <= virtual_key <= VK_F1 + 11 {
        Some("F"@ + crate::text::decimal((virtual_key - VK_F1 + 1) as nat))
    } else {
        None
    }
}

pub fn primary_key_name(virtual_key: i32) -> (name: Option<String>)
    ensures
        match primary_key_label(virtual_key) {
            Some(label) => name matches Some(text) && text@ == label,
            None => name is None,
        },
{
    if (65 <= virtual_key && virtual_key <= 90) || (48 <= virtual_key && virtual_key <= 57) {
        let code: u8 = virtual_key as u8;
        let c = code as char;
        let letter = [c];
        return Some(crate::text::string_from_chars(letter.as_slice()));
    }
    let first: i32 = 0x70;
    if first <= virtual_key && virtual_key <= first + 11 {
        let number = decimal_string((virtual_key - first + 1) as u64);
        return Some(join2("F", number.as_str()));
    }
    None
}

/// The chord text a capture produces from the modifiers held down and the
/// primary key pressed: the held modifiers in the order CTRL, ALT, SHIFT,
/// META, then the key, canonicalized.
pub fn captured_chord(control: bool, alt: bool, shift: bool, meta: bool, key: &str) -> (result:
    Result<String, String>)
    ensures
        match canonical_chord(captured_text(control, alt, shift, meta, key@), KeyStyle::Windows) {
            Ok(text) => result matches Ok(spelled) && spelled@ == text,
            Err(problem) => result matches Err(message) && message@ == problem,
        },
{
    let mut text = String::new();
    assert(text@ =~= Seq::<char>::empty());
    if control {
        text.append("CTRL+");
    }
    if alt {
        text.append("ALT+");
    }
    if shift {
        text.append("SHIFT+");
    }
    if meta {
        text.append("META+");
    }
    text.append(key);
    canonicalize(text.as_str())
}

pub open spec fn captured_text(control: bool, alt: bool, shift: bool, meta: bool, key: Seq<char>) -> Seq<char> {
    (if control {
        "CTRL+"@
    } else {
        Seq::empty()
    }) + (if alt {
        "ALT+"@
    } else {
        Seq::empty()
    }) + (if shift {
        "SHIFT+"@
    } else {
        Seq::empty()
    }) + (if meta {
        "META+"@
    } else {
        Seq::empty()
    }) + key
}

/// What answering "is this chord free?" takes: a reserved chord is not free
/// and needs no question to Windows; any other chord is asked about in its
/// `RegisterHotKey` form.
pub fn availability_query(input: &str) -> (result: Result<Option<ParsedHotkey>, String>)
    ensures
        eq_ascii_ci(input@, LIST_HOTKEY@) ==> result == Ok::<Option<ParsedHotkey>, String>(None),
        !eq_ascii_ci(input@, LIST_HOTKEY@) ==> match parsed_hotkey(input@) {
            Ok(parsed) => result == Ok::<Option<ParsedHotkey>, String>(Some(parsed)),
            Err(problem) => result matches Err(message) && message@ == problem,
        },
{
    if is_reserved_hotkey(input) {
        return Ok(None);
    }
    match parse_hotkey(input) {
        Ok(parsed) => Ok(Some(parsed)),
        Err(error) => Err(error),
    }
}

/// The candidate chords offered in place of a taken one, consecutive
/// repeats removed.
pub fn suggestion_candidates(primary_key: &str) -> (candidates: Vec<String>)
    ensures
        texts_of(candidates@) == without_repeats(candidate_texts(primary_key@)),
{
    let mut candidates: Vec<String> = Vec::new();
    candidates.push(join2("CTRL+ALT+SHIFT+", primary_key));
    candidates.push(join2("CTRL+SHIFT+", primary_key));
    candidates.push(join2("ALT+SHIFT+", primary_key));
    candidates.push(String::from_str("CTRL+ALT+F9"));
    candidates.push(String::from_str("CTRL+ALT+F10"));
    candidates.push(String::from_str("CTRL+ALT+F11"));
    candidates.push(String::from_str("CTRL+ALT+SHIFT+1"));
    candidates.push(String::from_str("CTRL+ALT+SHIFT+2"));
    candidates.push(String::from_str("CTRL+ALT+SHIFT+3"));
    assert(texts_of(candidates@) =~= candidate_texts(primary_key@));
    dedup_texts(candidates)
}

pub open spec fn candidate_texts(primary_key: Seq<char>) -> Seq<Seq<char>> {
    seq![
        "CTRL+ALT+SHIFT+"@ + primary_key,
        "CTRL+SHIFT+"@ + primary_key,
        "ALT+SHIFT+"@ + primary_key,
        "CTRL+ALT+F9"@,
        "CTRL+ALT+F10"@,
        "CTRL+ALT+F11"@,
        "CTRL+ALT+SHIFT+1"@,
        "CTRL+ALT+SHIFT+2"@,
        "CTRL+ALT+SHIFT+3"@,
    ]
}

pub open spec fn texts_of(strings: Seq<String>) -> Seq<Seq<char>> {
    strings.map_values(|s: String| s@)
}

/// `Vec::dedup`: each run of equal neighbours kept once.
pub open spec fn without_repeats(items: Seq<Seq<char>>) -> Seq<Seq<char>>
    decreases items.len(),
{
    if items.len() <= 1 {
        items
    } else {
        let kept = without_repeats(items.drop_last());
        if items.last() == items[items.len() - 2] {
            kept
        } else {
            kept.push(items.last())
        }
    }
}

proof fn lemma_without_repeats_last(items: Seq<Seq<char>>)
    requires
        items.len() >= 1,
    ensures
        without_repeats(items).len() >= 1,
        without_repeats(items).last() == items.last(),
    decreases items.len(),
{
    if items.len() > 1 {
        lemma_without_repeats_last(items.drop_last());
    }
}

fn dedup_texts(items: Vec<String>) -> (kept: Vec<String>)
    ensures
        texts_of(kept@) == without_repeats(texts_of(items@)),
{
    let mut kept: Vec<String> = Vec::new();
    let mut index: usize = 0;
    assert(texts_of(items@).take(0) =~= Seq::<Seq<char>>::empty());
    while index < items.len()
        invariant
            index <= items@.len(),
            texts_of(kept@) == without_repeats(texts_of(items@).take(index as int)),
        decreases items@.len() - index,
    {
        let ghost prefix = texts_of(items@).take(index + 1);
        assert(prefix.drop_last() =~= texts_of(items@).take(index as int));
        if index > 0 {
            proof {
                lemma_without_repeats_last(texts_of(items@).take(index as int));
            }
            assert(prefix[prefix.len() - 2] == items@[index - 1]@);
            if crate::text::str_eq(items[index].as_str(), items[index - 1].as_str()) {
            } else {
                kept.push(items[index].clone());
                assert(texts_of(kept@) =~= without_repeats(prefix.drop_last()).push(prefix.last()));
            }
        } else {
            kept.push(items[index].clone());
            assert(texts_of(kept@) =~= prefix);
        }
        index = index + 1;
    }
    assert(texts_of(items@).take(items@.len() as int) =~= texts_of(items@));
    kept
}

/// How many suggestions a search offers at most.
pub const SUGGESTION_LIMIT: usize = 3;

/// The search for free chords to suggest: candidates are asked about in
/// order until three free ones are found or none is left.
pub struct SuggestionSearch {
    pub candidates: Vec<String>,
    pub next: usize,
    pub found: Vec<String>,
}

impl SuggestionSearch {
    pub open spec fn well_formed(&self) -> bool {
        &&& self.next <= self.candidates@.len()
        &&& self.found@.len() <= SUGGESTION_LIMIT
        &&& self.found@.len() <= self.next
    }

    pub open spec fn finished(&self) -> bool {
        self.next == self.candidates@.len() || self.found@.len() == SUGGESTION_LIMIT
    }

    /// A search over the candidates for `primary_key`.
    pub fn new(primary_key: &str) -> (search: Self)
        ensures
            search.well_formed(),
            texts_of(search.candidates@) == without_repeats(candidate_texts(primary_key@)),
            search.next == 0,
            search.found@.len() == 0,
    {
        SuggestionSearch {
            candidates: suggestion_candidates(primary_key),
            next: 0,
            found: Vec::new(),
        }
    }

    /// The chord to ask about next, if the search goes on.
    pub fn next_candidate(&self) -> (candidate: Option<&String>)
        requires
            self.well_formed(),
        ensures
            self.finished() ==> candidate is None,
            !self.finished() ==> candidate == Some(&self.candidates@[self.next as int]),
    {
        if self.next == self.candidates.len() || self.found.len() == SUGGESTION_LIMIT {
            None
        } else {
            Some(&self.candidates[self.next])
        }
    }

    /// Records whether the candidate asked about is free.
    pub fn record(&mut self, available: bool)
        requires
            old(self).well_formed(),
            !old(self).finished(),
        ensures
            final(self).well_formed(),
            final(self).candidates == old(self).candidates,
            final(self).next == old(self).next + 1,
            available ==> texts_of(final(self).found@) == texts_of(old(self).found@).push(
                old(self).candidates@[old(self).next as int]@,
            ),
            !available ==> final(self).found@ == old(self).found@,
    {
        let count = self.candidates.len();
        assert(self.next < count);
        if available {
            let candidate = self.candidates[self.next].clone();
            self.found.push(candidate);
            assert(texts_of(self.found@) =~= texts_of(old(self).found@).push(
                old(self).candidates@[old(self).next as int]@,
            ));
        }
        self.next = self.next + 1;
    }
}

/// Reads the answer of `RegisterHotKey` for a chord that was tested: a
/// failure with `ERROR_HOTKEY_ALREADY_REGISTERED` means the chord is taken;
/// any other failure is an error.
pub fn registration_answer(registered: bool, os_error: Option<i32>) -> (free: Option<bool>)
    ensures
        registered ==> free == Some(true),
        !registered && os_error == Some(ERROR_HOTKEY_ALREADY_REGISTERED) ==> free == Some(false),
        !registered && os_error != Some(ERROR_HOTKEY_ALREADY_REGISTERED) ==> free is None,
{
    if registered {
        Some(true)
    } else if os_error == Some(ERROR_HOTKEY_ALREADY_REGISTERED) {
        Some(false)
    } else {
        None
    }
}

/// The verdict on a chord that was tested with Windows: a free chord is
/// accepted, a taken or reserved one refused with its reason.
pub fn test_registration(input: &str, available: bool) -> (result: Result<(), String>)
    ensures
        available ==> result is Ok,
        !available ==> (result matches Err(message) && message@ == "Windows rejected hotkey '"@
            + input@ + "': it is already registered or reserved"@),
{
    if available {
        Ok(())
    } else {
        Err(join3("Windows rejected hotkey '", input, "': it is already registered or reserved"))
    }
}

} // verus!
