//! The canonical spelling of a chord reads back as itself.
use vstd::prelude::*;

use crate::hotkey::{
    canonical_chord, chord_of, chord_scan, chord_step, chord_text, empty_chord, is_alt_name,
    is_ascii_alphanumeric,
    is_control_name, is_function_key, is_meta_name, is_primary_key, lemma_split_plus_nonempty,
    normalized, split_plus, ChordView, KeyStyle,
};
use crate::text::{ascii_upper, ascii_uppercase, decimal, is_unicode_whitespace, trim_back, trim_front};

verus! {

pub open spec fn plus_free(s: Seq<char>) -> bool {
    forall|i: int| 0 <= i < s.len() ==> s[i] != '+'
}

/// A token is its own normal form: nothing to trim, nothing to upper-case.
pub open spec fn is_normal_token(s: Seq<char>) -> bool {
    &&& s.len() > 0
    &&& !is_unicode_whitespace(s[0])
    &&& !is_unicode_whitespace(s.last())
    &&& forall|i: int| 0 <= i < s.len() ==> !('a' <= #[trigger] s[i] <= 'z')
}

proof fn lemma_split_plus_free(s: Seq<char>)
    requires
        plus_free(s),
    ensures
        split_plus(s) == seq![s],
    decreases s.len(),
{
    if s.len() > 0 {
        lemma_split_plus_free(s.drop_last());
        assert(s.drop_last().push(s.last()) =~= s);
        assert(seq![s.drop_last()].update(0, s.drop_last().push(s.last())) =~= seq![s]);
    } else {
        assert(s =~= Seq::<char>::empty());
    }
}

/// Splitting after a first token that holds no `+`.
proof fn lemma_split_after_token(x: Seq<char>, r: Seq<char>)
    requires
        plus_free(x),
    ensures
        split_plus(x + seq!['+'] + r) == seq![x] + split_plus(r),
    decreases r.len(),
{
    let s = x + seq!['+'] + r;
    if r.len() == 0 {
        assert(s.drop_last() =~= x);
        assert(s.last() == '+');
        lemma_split_plus_free(x);
        assert(seq![x].push(Seq::<char>::empty()) =~= seq![x] + seq![Seq::<char>::empty()]);
    } else {
        let shorter = r.drop_last();
        let c = r.last();
        lemma_split_after_token(x, shorter);
        assert(s.drop_last() =~= x + seq!['+'] + shorter);
        assert(s.last() == c);
        lemma_split_plus_nonempty(shorter);
        let p = split_plus(shorter);
        let whole = seq![x] + p;
        if c == '+' {
            assert(whole.push(Seq::<char>::empty()) =~= seq![x] + p.push(Seq::<char>::empty()));
        } else {
            assert(whole.update(whole.len() - 1, whole.last().push(c)) =~= seq![x] + p.update(
                p.len() - 1,
                p.last().push(c),
            ));
        }
    }
}

proof fn lemma_normal_token(s: Seq<char>)
    requires
        is_normal_token(s),
    ensures
        normalized(s) == s,
{
    assert(trim_front(s) == s);
    assert(trim_back(s) == s);
    assert forall|i: int| 0 <= i < s.len() implies ascii_upper(s[i]) == s[i] by {
        assert(!('a' <= s[i] <= 'z'));
    }
    assert(ascii_uppercase(s) =~= s);
}

/// What a primary key read from a chord looks like: its own normal form,
/// without `+`, and no modifier name.
pub open spec fn clean_key(k: Seq<char>, style: KeyStyle) -> bool {
    &&& is_normal_token(k)
    &&& plus_free(k)
    &&& is_primary_key(k, style)
    &&& !is_control_name(k)
    &&& !is_alt_name(k)
    &&& k != "SHIFT"@
    &&& !is_meta_name(k, style)
}

proof fn lemma_upper_not_lower(s: Seq<char>, i: int)
    requires
        0 <= i < s.len(),
    ensures
        !('a' <= #[trigger] ascii_uppercase(s)[i] <= 'z'),
{
    let c = s[i];
    if 'a' <= c <= 'z' {
        assert(97 <= (c as u32) <= 122);
        assert(ascii_uppercase(s)[i] == ((c as u32) - 32) as char);
    }
}

proof fn lemma_function_key_clean(k: Seq<char>)
    requires
        is_function_key(k),
    ensures
        is_normal_token(k),
        plus_free(k),
{
    reveal_strlit("F1");
    reveal_strlit("F2");
    reveal_strlit("F3");
    reveal_strlit("F4");
    reveal_strlit("F5");
    reveal_strlit("F6");
    reveal_strlit("F7");
    reveal_strlit("F8");
    reveal_strlit("F9");
    reveal_strlit("F10");
    reveal_strlit("F11");
    reveal_strlit("F12");
}

/// The primary key of a chord that reads is clean.
proof fn lemma_scan_key_clean(parts: Seq<Seq<char>>, style: KeyStyle)
    requires
        chord_scan(parts, style) matches Ok(chord) && chord.key is Some,
    ensures
        clean_key(chord_scan(parts, style)->Ok_0.key->Some_0, style),
    decreases parts.len(),
{
    let before = chord_scan(parts.drop_last(), style);
    let token = normalized(parts.last());
    if before->Ok_0.key is Some {
        lemma_scan_key_clean(parts.drop_last(), style);
    } else {
        let k = token;
        assert(chord_scan(parts, style)->Ok_0.key->Some_0 == k);
        reveal_strlit("SPACE");
        if k.len() == 1 && is_ascii_alphanumeric(k[0]) {
            assert forall|i: int| 0 <= i < k.len() implies !('a' <= #[trigger] k[i] <= 'z') by {
                lemma_upper_not_lower(crate::text::trimmed(parts.last()), i);
            }
            assert(k[0] != '+');
            assert(!is_unicode_whitespace(k[0]));
        } else if is_function_key(k) {
            lemma_function_key_clean(k);
        } else {
            assert(k == "SPACE"@);
        }
    }
}

/// The modifier tokens of a chord, in canonical order.
pub open spec fn modifier_tokens(chord: ChordView) -> Seq<Seq<char>> {
    (if chord.control {
        seq!["CTRL"@]
    } else {
        Seq::empty()
    }) + (if chord.alt {
        seq!["ALT"@]
    } else {
        Seq::empty()
    }) + (if chord.shift {
        seq!["SHIFT"@]
    } else {
        Seq::empty()
    }) + (if chord.meta {
        seq!["META"@]
    } else {
        Seq::empty()
    })
}

proof fn lemma_literals()
    ensures
        "CTRL+"@ == "CTRL"@ + seq!['+'],
        "ALT+"@ == "ALT"@ + seq!['+'],
        "SHIFT+"@ == "SHIFT"@ + seq!['+'],
        "META+"@ == "META"@ + seq!['+'],
        plus_free("CTRL"@) && plus_free("ALT"@) && plus_free("SHIFT"@) && plus_free("META"@),
        is_normal_token("CTRL"@) && is_normal_token("ALT"@) && is_normal_token("SHIFT"@)
            && is_normal_token("META"@),
{
    reveal_strlit("CTRL+");
    reveal_strlit("ALT+");
    reveal_strlit("SHIFT+");
    reveal_strlit("META+");
    reveal_strlit("CTRL");
    reveal_strlit("ALT");
    reveal_strlit("SHIFT");
    reveal_strlit("META");
    assert("CTRL+"@ =~= "CTRL"@ + seq!['+']);
    assert("ALT+"@ =~= "ALT"@ + seq!['+']);
    assert("SHIFT+"@ =~= "SHIFT"@ + seq!['+']);
    assert("META+"@ =~= "META"@ + seq!['+']);
}

/// A token in front of the rest of a spelling, when it is there.
pub open spec fn prefixed(present: bool, token: Seq<char>, rest: Seq<char>) -> Seq<char> {
    if present {
        token + seq!['+'] + rest
    } else {
        rest
    }
}

proof fn lemma_split_prefixed(present: bool, token: Seq<char>, rest: Seq<char>)
    requires
        plus_free(token),
    ensures
        split_plus(prefixed(present, token, rest)) == (if present {
            seq![token]
        } else {
            Seq::empty()
        }) + split_plus(rest),
{
    if present {
        lemma_split_after_token(token, rest);
    } else {
        assert(Seq::<Seq<char>>::empty() + split_plus(rest) =~= split_plus(rest));
    }
}

/// The canonical spelling splits into the modifier tokens and the key.
proof fn lemma_split_chord_text(chord: ChordView, key: Seq<char>)
    requires
        plus_free(key),
    ensures
        split_plus(chord_text(chord, key)) == modifier_tokens(chord).push(key),
{
    lemma_literals();
    let t4 = key;
    let t3 = prefixed(chord.meta, "META"@, t4);
    let t2 = prefixed(chord.shift, "SHIFT"@, t3);
    let t1 = prefixed(chord.alt, "ALT"@, t2);
    let t0 = prefixed(chord.control, "CTRL"@, t1);
    assert(chord_text(chord, key) =~= t0);
    lemma_split_plus_free(t4);
    lemma_split_prefixed(chord.meta, "META"@, t4);
    lemma_split_prefixed(chord.shift, "SHIFT"@, t3);
    lemma_split_prefixed(chord.alt, "ALT"@, t2);
    lemma_split_prefixed(chord.control, "CTRL"@, t1);
    assert(split_plus(t0) =~= modifier_tokens(chord).push(key));
}

/// Scanning the token list that ends with `token`, one step at a time.
proof fn lemma_scan_push(parts: Seq<Seq<char>>, token: Seq<char>, style: KeyStyle)
    ensures
        chord_scan(parts.push(token), style) == match chord_scan(parts, style) {
            Ok(chord) => chord_step(chord, normalized(token), style),
            Err(problem) => Err(problem),
        },
{
    assert(parts.push(token).drop_last() =~= parts);
}

proof fn lemma_scan_optional(
    parts: Seq<Seq<char>>,
    present: bool,
    token: Seq<char>,
    style: KeyStyle,
    after: ChordView,
)
    requires
        is_normal_token(token),
        chord_scan(parts, style) is Ok,
        present ==> chord_step(chord_scan(parts, style)->Ok_0, token, style) == Ok::<
            ChordView,
            Seq<char>,
        >(after),
        !present ==> chord_scan(parts, style)->Ok_0 == after,
    ensures
        chord_scan(
            parts + (if present {
                seq![token]
            } else {
                Seq::empty()
            }),
            style,
        ) == Ok::<ChordView, Seq<char>>(after),
{
    if present {
        assert(parts + seq![token] =~= parts.push(token));
        lemma_scan_push(parts, token, style);
        lemma_normal_token(token);
    } else {
        assert(parts + Seq::<Seq<char>>::empty() =~= parts);
    }
}

/// The modifier tokens scan back to the modifiers.
proof fn lemma_scan_modifiers(chord: ChordView, style: KeyStyle)
    ensures
        chord_scan(modifier_tokens(chord), style) == Ok::<ChordView, Seq<char>>(
            ChordView { key: None, ..chord },
        ),
{
    lemma_literals();
    reveal_strlit("CTRL");
    reveal_strlit("CONTROL");
    reveal_strlit("ALT");
    reveal_strlit("OPTION");
    reveal_strlit("SHIFT");
    reveal_strlit("META");
    reveal_strlit("WIN");
    reveal_strlit("WINDOWS");
    reveal_strlit("SUPER");
    reveal_strlit("CMD");
    reveal_strlit("COMMAND");
    let c0 = empty_chord();
    let c1 = ChordView { control: chord.control, ..c0 };
    let c2 = ChordView { alt: chord.alt, ..c1 };
    let c3 = ChordView { shift: chord.shift, ..c2 };
    let c4 = ChordView { meta: chord.meta, ..c3 };
    let p0 = Seq::<Seq<char>>::empty();
    let p1 = p0 + (if chord.control {
        seq!["CTRL"@]
    } else {
        Seq::empty()
    });
    let p2 = p1 + (if chord.alt {
        seq!["ALT"@]
    } else {
        Seq::empty()
    });
    let p3 = p2 + (if chord.shift {
        seq!["SHIFT"@]
    } else {
        Seq::empty()
    });
    let p4 = p3 + (if chord.meta {
        seq!["META"@]
    } else {
        Seq::empty()
    });
    assert(chord_scan(p0, style) == Ok::<ChordView, Seq<char>>(c0));
    lemma_scan_optional(p0, chord.control, "CTRL"@, style, c1);
    lemma_scan_optional(p1, chord.alt, "ALT"@, style, c2);
    lemma_scan_optional(p2, chord.shift, "SHIFT"@, style, c3);
    lemma_scan_optional(p3, chord.meta, "META"@, style, c4);
    assert(p4 =~= modifier_tokens(chord));
    assert(c4 == ChordView { key: None, ..chord });
}

/// Canonical spelling is a fixed point: what `canonicalize` gives,
/// canonicalized again, is the same text.
pub proof fn lemma_canonical_chord_idempotent(input: Seq<char>, style: KeyStyle)
    requires
        canonical_chord(input, style) is Ok,
    ensures
        canonical_chord(canonical_chord(input, style)->Ok_0, style) == canonical_chord(
            input,
            style,
        ),
{
    let chord = chord_of(input, style)->Ok_0;
    let key = chord.key->Some_0;
    let text = chord_text(chord, key);
    lemma_scan_key_clean(split_plus(input), style);
    lemma_split_chord_text(chord, key);
    lemma_scan_modifiers(chord, style);
    lemma_scan_push(modifier_tokens(chord), key, style);
    lemma_normal_token(key);
    assert(chord_scan(split_plus(text), style) == Ok::<ChordView, Seq<char>>(chord));
    assert(chord_of(text, style) == Ok::<ChordView, Seq<char>>(chord));
}

/// The name of the `n`th function key: `F` and `n` in decimal.
pub open spec fn function_key_name(n: nat) -> Seq<char> {
    "F"@ + decimal(n)
}

proof fn lemma_function_key_name(n: nat)
    requires
        1 <= n <= 12,
    ensures
        is_function_key(function_key_name(n)),
{
    reveal_with_fuel(decimal, 2);
    reveal_strlit("F");
    reveal_strlit("F1");
    reveal_strlit("F2");
    reveal_strlit("F3");
    reveal_strlit("F4");
    reveal_strlit("F5");
    reveal_strlit("F6");
    reveal_strlit("F7");
    reveal_strlit("F8");
    reveal_strlit("F9");
    reveal_strlit("F10");
    reveal_strlit("F11");
    reveal_strlit("F12");
    let name = function_key_name(n);
    if n == 1 {
        assert(name =~= "F1"@);
    } else if n == 2 {
        assert(name =~= "F2"@);
    } else if n == 3 {
        assert(name =~= "F3"@);
    } else if n == 4 {
        assert(name =~= "F4"@);
    } else if n == 5 {
        assert(name =~= "F5"@);
    } else if n == 6 {
        assert(name =~= "F6"@);
    } else if n == 7 {
        assert(name =~= "F7"@);
    } else if n == 8 {
        assert(name =~= "F8"@);
    } else if n == 9 {
        assert(name =~= "F9"@);
    } else if n == 10 {
        assert(name =~= "F10"@);
    } else if n == 11 {
        assert(name =~= "F11"@);
    } else {
        assert(name =~= "F12"@);
    }
}

/// Every function key F1 to F12 is a primary key, in the Windows and the
/// macOS style alike: a chord of one or more modifiers and `F`n is
/// accepted, and spelled as the modifiers' names in the order CTRL, ALT,
/// SHIFT, META, each followed by `+`, then `F`n.
pub proof fn lemma_function_key_chords(
    n: nat,
    control: bool,
    alt: bool,
    shift: bool,
    meta: bool,
    style: KeyStyle,
)
    requires
        1 <= n <= 12,
        control || alt || shift || meta,
    ensures
        is_primary_key(function_key_name(n), style),
        ({
            let text = (if control {
                "CTRL+"@
            } else {
                Seq::empty()
            }) + (if alt {
                "ALT+"@
            } else {
                Seq::empty()
            }) + (if shift {
                "SHIFT+"@
            } else {
                Seq::empty()
            }) + (if meta {
                "META+"@
            } else {
                Seq::empty()
            }) + function_key_name(n);
            canonical_chord(text, style) == Ok::<Seq<char>, Seq<char>>(text)
        }),
{
    let key = function_key_name(n);
    lemma_function_key_name(n);
    lemma_function_key_clean(key);
    let chord = ChordView { control, alt, shift, meta, key: Some(key) };
    let text = chord_text(chord, key);
    lemma_split_chord_text(chord, key);
    lemma_scan_modifiers(chord, style);
    lemma_scan_push(modifier_tokens(chord), key, style);
    lemma_normal_token(key);
    reveal_strlit("CTRL");
    reveal_strlit("CONTROL");
    reveal_strlit("ALT");
    reveal_strlit("OPTION");
    reveal_strlit("SHIFT");
    reveal_strlit("META");
    reveal_strlit("WIN");
    reveal_strlit("WINDOWS");
    reveal_strlit("SUPER");
    reveal_strlit("CMD");
    reveal_strlit("COMMAND");
    reveal_strlit("F");
    reveal_with_fuel(decimal, 2);
    assert(key[0] == 'F');
    assert(!is_control_name(key));
    assert(!is_alt_name(key));
    assert(key != "SHIFT"@);
    assert(!is_meta_name(key, style));
    assert(chord_scan(split_plus(text), style) == Ok::<ChordView, Seq<char>>(chord));
    assert(chord_of(text, style) == Ok::<ChordView, Seq<char>>(chord));
}

proof fn lemma_upper_keeps_whitespace(c: char)
    ensures
        is_unicode_whitespace(ascii_upper(c)) == is_unicode_whitespace(c),
        (ascii_upper(c) == '+') == (c == '+'),
        ascii_upper(ascii_upper(c)) == ascii_upper(c),
{
    if 'a' <= c <= 'z' {
        assert(ascii_upper(c) as u32 == (c as u32) - 32);
    }
}

proof fn lemma_split_plus_upper(s: Seq<char>)
    ensures
        split_plus(ascii_uppercase(s)) == split_plus(s).map_values(|p: Seq<char>| ascii_uppercase(p)),
    decreases s.len(),
{
    lemma_split_plus_nonempty(s);
    if s.len() > 0 {
        let u = ascii_uppercase(s);
        lemma_split_plus_upper(s.drop_last());
        lemma_split_plus_nonempty(s.drop_last());
        assert(u.drop_last() =~= ascii_uppercase(s.drop_last()));
        assert(u.last() == ascii_upper(s.last()));
        lemma_upper_keeps_whitespace(s.last());
        let parts = split_plus(s.drop_last());
        if s.last() != '+' {
            assert(ascii_uppercase(parts.last().push(s.last())) =~= ascii_uppercase(parts.last()).push(
                u.last(),
            ));
        } else {
            assert(ascii_uppercase(Seq::<char>::empty()) =~= Seq::<char>::empty());
        }
        assert(split_plus(u) =~= split_plus(s).map_values(|p: Seq<char>| ascii_uppercase(p)));
    } else {
        assert(ascii_uppercase(s) =~= Seq::<char>::empty());
        assert(ascii_uppercase(Seq::<char>::empty()) =~= Seq::<char>::empty());
        assert(split_plus(ascii_uppercase(s)) =~= split_plus(s).map_values(
            |p: Seq<char>| ascii_uppercase(p),
        ));
    }
}

proof fn lemma_trim_front_upper(s: Seq<char>)
    ensures
        trim_front(ascii_uppercase(s)) == ascii_uppercase(trim_front(s)),
    decreases s.len(),
{
    if s.len() > 0 {
        lemma_upper_keeps_whitespace(s[0]);
        assert(ascii_uppercase(s)[0] == ascii_upper(s[0]));
        if is_unicode_whitespace(s[0]) {
            assert(ascii_uppercase(s).drop_first() =~= ascii_uppercase(s.drop_first()));
            lemma_trim_front_upper(s.drop_first());
        }
    }
}

proof fn lemma_trim_back_upper(s: Seq<char>)
    ensures
        trim_back(ascii_uppercase(s)) == ascii_uppercase(trim_back(s)),
    decreases s.len(),
{
    if s.len() > 0 {
        lemma_upper_keeps_whitespace(s.last());
        assert(ascii_uppercase(s).last() == ascii_upper(s.last()));
        if is_unicode_whitespace(s.last()) {
            assert(ascii_uppercase(s).drop_last() =~= ascii_uppercase(s.drop_last()));
            lemma_trim_back_upper(s.drop_last());
        }
    }
}

proof fn lemma_normalized_upper(p: Seq<char>)
    ensures
        normalized(ascii_uppercase(p)) == normalized(p),
{
    lemma_trim_front_upper(p);
    lemma_trim_back_upper(trim_front(p));
    let t = crate::text::trimmed(p);
    assert forall|i: int| 0 <= i < t.len() implies ascii_uppercase(ascii_uppercase(t))[i]
        == ascii_uppercase(t)[i] by {
        lemma_upper_keeps_whitespace(t[i]);
    }
    assert(ascii_uppercase(ascii_uppercase(t)) =~= ascii_uppercase(t));
}

proof fn lemma_scan_upper(parts: Seq<Seq<char>>, style: KeyStyle)
    ensures
        chord_scan(parts.map_values(|p: Seq<char>| ascii_uppercase(p)), style) == chord_scan(
            parts,
            style,
        ),
    decreases parts.len(),
{
    let upper = parts.map_values(|p: Seq<char>| ascii_uppercase(p));
    if parts.len() > 0 {
        assert(upper.drop_last() =~= parts.drop_last().map_values(
            |p: Seq<char>| ascii_uppercase(p),
        ));
        lemma_scan_upper(parts.drop_last(), style);
        lemma_normalized_upper(parts.last());
    }
}

/// A chord is read ignoring the ASCII case of what was typed: two inputs
/// with the same ASCII upper-case form are accepted or refused alike, and
/// spelled alike ("ctrl+alt+f11" as "CTRL+ALT+F11").
pub proof fn lemma_canonical_chord_ignores_ascii_case(a: Seq<char>, b: Seq<char>, style: KeyStyle)
    requires
        ascii_uppercase(a) == ascii_uppercase(b),
    ensures
        canonical_chord(a, style) == canonical_chord(b, style),
{
    lemma_split_plus_upper(a);
    lemma_split_plus_upper(b);
    lemma_scan_upper(split_plus(a), style);
    lemma_scan_upper(split_plus(b), style);
}

/// The names a modifier is known by in a style, and the name it is
/// spelled with: CONTROL is CTRL and OPTION is ALT in both styles; SUPER
/// is META in both, WIN and WINDOWS are META on Windows, CMD and COMMAND
/// are META on macOS.
pub open spec fn modifier_alias(alias: Seq<char>, name: Seq<char>, style: KeyStyle) -> bool {
    ||| alias == "CONTROL"@ && name == "CTRL"@
    ||| alias == "OPTION"@ && name == "ALT"@
    ||| alias == "SUPER"@ && name == "META"@
    ||| style == KeyStyle::Windows && (alias == "WIN"@ || alias == "WINDOWS"@) && name == "META"@
    ||| style == KeyStyle::MacOs && (alias == "CMD"@ || alias == "COMMAND"@) && name == "META"@
}

/// A modifier typed by another of its names is read as that modifier: the
/// chord of it and a function key is spelled with the modifier's own name.
pub proof fn lemma_modifier_aliases(alias: Seq<char>, name: Seq<char>, n: nat, style: KeyStyle)
    requires
        modifier_alias(alias, name, style),
        1 <= n <= 12,
    ensures
        canonical_chord(alias + seq!['+'] + function_key_name(n), style) == Ok::<
            Seq<char>,
            Seq<char>,
        >(name + seq!['+'] + function_key_name(n)),
{
    let key = function_key_name(n);
    lemma_function_key_name(n);
    lemma_function_key_clean(key);
    reveal_strlit("CTRL");
    reveal_strlit("CONTROL");
    reveal_strlit("ALT");
    reveal_strlit("OPTION");
    reveal_strlit("SHIFT");
    reveal_strlit("META");
    reveal_strlit("WIN");
    reveal_strlit("WINDOWS");
    reveal_strlit("SUPER");
    reveal_strlit("CMD");
    reveal_strlit("COMMAND");
    reveal_strlit("F");
    reveal_with_fuel(decimal, 2);
    assert(is_normal_token(alias));
    assert(plus_free(alias));
    lemma_split_after_token(alias, key);
    lemma_split_plus_free(key);
    let parts = seq![alias, key];
    assert(split_plus(alias + seq!['+'] + key) =~= parts);
    assert(seq![alias] =~= Seq::<Seq<char>>::empty().push(alias));
    assert(parts =~= seq![alias].push(key));
    lemma_scan_push(Seq::empty(), alias, style);
    lemma_scan_push(seq![alias], key, style);
    lemma_normal_token(alias);
    lemma_normal_token(key);
    assert(key[0] == 'F');
    assert(!is_control_name(key));
    assert(!is_alt_name(key));
    assert(key != "SHIFT"@);
    assert(!is_meta_name(key, style));
    let chord = chord_of(alias + seq!['+'] + key, style)->Ok_0;
    assert(chord_of(alias + seq!['+'] + key, style) is Ok);
    lemma_literals();
    assert(chord_text(chord, key) =~= name + seq!['+'] + key);
}

} // verus!
