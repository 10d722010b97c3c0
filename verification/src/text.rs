use vstd::prelude::*;

verus! {

/// The characters of `s` in order.
pub fn chars_of(s: &str) -> (chars: Vec<char>)
    ensures
        chars@ == s@,
{
    let length = s.unicode_len();
    let mut chars: Vec<char> = Vec::new();
    let mut index: usize = 0;
    while index < length
        invariant
            length == s@.len(),
            index <= length,
            chars@ == s@.subrange(0, index as int),
        decreases length - index,
    {
        chars.push(s.get_char(index));
        index = index + 1;
    }
    assert(s@.subrange(0, length as int) == s@);
    chars
}

/// Builds a string holding exactly `chars`.
#[verifier::external_body]
pub fn string_from_chars(chars: &[char]) -> (s: String)
    ensures
        s@ == chars@,
{
    chars.iter().collect()
}

/// Whether `message` is `prefix` followed by some detail.
pub open spec fn reports(message: Seq<char>, prefix: Seq<char>) -> bool {
    exists|detail: Seq<char>| message == #[trigger] (prefix + detail)
}

/// `prefix + suffix` as a new string.
pub fn join2(prefix: &str, suffix: &str) -> (text: String)
    ensures
        text@ == prefix@ + suffix@,
{
    let mut text = String::from_str(prefix);
    text.append(suffix);
    text
}

/// `prefix + middle + suffix` as a new string.
pub fn join3(prefix: &str, middle: &str, suffix: &str) -> (text: String)
    ensures
        text@ == prefix@ + middle@ + suffix@,
{
    let mut text = String::from_str(prefix);
    text.append(middle);
    text.append(suffix);
    text
}

/// Exact equality of two texts.
pub fn str_eq(a: &str, b: &str) -> (r: bool)
    ensures
        r == (a@ == b@),
{
    let left = chars_of(a);
    let right = chars_of(b);
    if left.len() != right.len() {
        return false;
    }
    let mut index: usize = 0;
    while index < left.len()
        invariant
            left@ == a@,
            right@ == b@,
            left@.len() == right@.len(),
            index <= left@.len(),
            forall|i: int| 0 <= i < index ==> a@[i] == b@[i],
        decreases left.len() - index,
    {
        if left[index] != right[index] {
            return false;
        }
        index = index + 1;
    }
    assert(a@ =~= b@);
    true
}

/// Whether `c` has the Unicode `White_Space` property, as `char::is_whitespace`
/// documents it.
pub open spec fn is_unicode_whitespace(c: char) -> bool {
    let v = c as u32;
    ||| 0x09 <= v <= 0x0D
    ||| v == 0x20
    ||| v == 0x85
    ||| v == 0xA0
    ||| v == 0x1680
    ||| 0x2000 <= v <= 0x200A
    ||| v == 0x2028
    ||| v == 0x2029
    ||| v == 0x202F
    ||| v == 0x205F
    ||| v == 0x3000
}

pub fn is_whitespace(c: char) -> (r: bool)
    ensures
        r == is_unicode_whitespace(c),
{
    let v = c as u32;
    (0x09 <= v && v <= 0x0D) || v == 0x20 || v == 0x85 || v == 0xA0 || v == 0x1680 || (0x2000
        <= v && v <= 0x200A) || v == 0x2028 || v == 0x2029 || v == 0x202F || v == 0x205F || v
        == 0x3000
}

/// A text is blank when trimming its whitespace leaves nothing.
pub open spec fn is_blank_text(s: Seq<char>) -> bool {
    forall|i: int| 0 <= i < s.len() ==> #[trigger] is_unicode_whitespace(s[i])
}

/// Whether `s.trim()` is empty.
pub fn is_blank(s: &str) -> (r: bool)
    ensures
        r == is_blank_text(s@),
{
    let chars = chars_of(s);
    let mut index: usize = 0;
    while index < chars.len()
        invariant
            chars@ == s@,
            index <= chars@.len(),
            forall|i: int| 0 <= i < index ==> #[trigger] is_unicode_whitespace(s@[i]),
        decreases chars.len() - index,
    {
        if !is_whitespace(chars[index]) {
            return false;
        }
        index = index + 1;
    }
    true
}

/// Whether the text holds a line feed or a carriage return.
pub open spec fn has_line_break(s: Seq<char>) -> bool {
    exists|i: int| 0 <= i < s.len() && (s[i] == '\n' || s[i] == '\r')
}

pub fn contains_line_break(s: &str) -> (r: bool)
    ensures
        r == has_line_break(s@),
{
    let chars = chars_of(s);
    let mut index: usize = 0;
    while index < chars.len()
        invariant
            chars@ == s@,
            index <= chars@.len(),
            forall|i: int| 0 <= i < index ==> s@[i] != '\n' && s@[i] != '\r',
        decreases chars.len() - index,
    {
        if chars[index] == '\n' || chars[index] == '\r' {
            return true;
        }
        index = index + 1;
    }
    false
}

/// The ASCII lower-case form of `c`; other characters are unchanged.
pub open spec fn ascii_fold(c: char) -> char {
    if 'A' <= c <= 'Z' {
        ((c as u32) + 32) as char
    } else {
        c
    }
}

pub fn ascii_fold_char(c: char) -> (r: char)
    ensures
        r == ascii_fold(c),
{
    if 'A' <= c && c <= 'Z' {
        let folded: u8 = (c as u8) + 32;
        folded as char
    } else {
        c
    }
}

/// Equality up to ASCII case, as `str::eq_ignore_ascii_case` defines it.
pub open spec fn eq_ascii_ci(a: Seq<char>, b: Seq<char>) -> bool {
    &&& a.len() == b.len()
    &&& forall|i: int| 0 <= i < a.len() ==> #[trigger] ascii_fold(a[i]) == ascii_fold(b[i])
}

pub fn eq_ignore_ascii_case(a: &str, b: &str) -> (r: bool)
    ensures
        r == eq_ascii_ci(a@, b@),
{
    let left = chars_of(a);
    let right = chars_of(b);
    if left.len() != right.len() {
        return false;
    }
    let mut index: usize = 0;
    while index < left.len()
        invariant
            left@ == a@,
            right@ == b@,
            left@.len() == right@.len(),
            index <= left@.len(),
            forall|i: int| 0 <= i < index ==> #[trigger] ascii_fold(a@[i]) == ascii_fold(b@[i]),
        decreases left.len() - index,
    {
        if ascii_fold_char(left[index]) != ascii_fold_char(right[index]) {
            return false;
        }
        index = index + 1;
    }
    true
}

/// The upper-case hexadecimal digit for `n` (below 16).
pub open spec fn hex_digit(n: int) -> char {
    if n < 10 {
        (48 + n) as char
    } else {
        (55 + n) as char
    }
}

/// Two upper-case hexadecimal digits for a byte.
pub open spec fn hex_byte(b: u8) -> Seq<char> {
    seq![hex_digit(b as int / 16), hex_digit(b as int % 16)]
}

pub fn hex_digit_char(n: u8) -> (c: char)
    requires
        n < 16,
    ensures
        c == hex_digit(n as int),
{
    let value: u8 = if n < 10 {
        48 + n
    } else {
        55 + n
    };
    value as char
}

/// Two upper-case hexadecimal digits for a byte, as text.
pub fn hex_byte_string(b: u8) -> (s: String)
    ensures
        s@ == hex_byte(b),
{
    let pair = [hex_digit_char(b / 16), hex_digit_char(b % 16)];
    let s = string_from_chars(pair.as_slice());
    assert(s@ =~= hex_byte(b));
    s
}

/// The upper-case hexadecimal digits of `n`, without leading zeros.
pub open spec fn upper_hex(n: nat) -> Seq<char>
    decreases n,
{
    if n < 16 {
        seq![hex_digit(n as int)]
    } else {
        upper_hex(n / 16).push(hex_digit((n % 16) as int))
    }
}

/// Formats `n` in upper-case hexadecimal.
pub fn upper_hex_string(n: u32) -> (s: String)
    ensures
        s@ == upper_hex(n as nat),
    decreases n,
{
    if n < 16 {
        let digit = [hex_digit_char(n as u8)];
        let s = string_from_chars(digit.as_slice());
        assert(s@ =~= upper_hex(n as nat));
        s
    } else {
        let mut s = upper_hex_string(n / 16);
        let digit = [hex_digit_char((n % 16) as u8)];
        let tail = string_from_chars(digit.as_slice());
        s.append(tail.as_str());
        assert(s@ =~= upper_hex(n as nat));
        s
    }
}

/// The decimal digits of `n`, without leading zeros ("0" for zero).
pub open spec fn decimal(n: nat) -> Seq<char>
    decreases n,
{
    if n < 10 {
        seq![(48 + n) as char]
    } else {
        decimal(n / 10).push((48 + n % 10) as char)
    }
}

/// Formats `n` in decimal.
pub fn decimal_string(n: u64) -> (s: String)
    ensures
        s@ == decimal(n as nat),
{
    let mut digits: Vec<char> = Vec::new();
    let mut rest = n;
    // Digits are produced from the least significant end.
    let ghost mut produced: Seq<char> = Seq::empty();
    while rest >= 10
        invariant
            digits@.len() == produced.len(),
            forall|i: int|
                0 <= i < produced.len() ==> #[trigger] digits@[i] == produced[produced.len() - 1
                    - i],
            decimal(n as nat) == decimal(rest as nat) + produced,
        decreases rest,
    {
        let digit = (rest % 10) as u8;
        let c = (48 + digit) as char;
        digits.push(c);
        proof {
            assert(decimal(rest as nat) == decimal((rest / 10) as nat).push(c));
            assert(decimal(rest as nat) + produced =~= decimal((rest / 10) as nat) + (seq![c]
                + produced));
            produced = seq![c] + produced;
        }
        rest = rest / 10;
    }
    let c = (48 + rest as u8) as char;
    digits.push(c);
    proof {
        assert(decimal(rest as nat) == seq![c]);
        produced = seq![c] + produced;
        assert(decimal(n as nat) =~= produced);
    }
    let mut reversed: Vec<char> = Vec::new();
    let mut index: usize = digits.len();
    while index > 0
        invariant
            index <= digits@.len(),
            digits@.len() == produced.len(),
            forall|i: int| 0 <= i < produced.len() ==> #[trigger] digits@[i] == produced[produced.len() - 1 - i],
            reversed@ == produced.subrange(0, (produced.len() - index) as int),
        decreases index,
    {
        index = index - 1;
        reversed.push(digits[index]);
        assert(reversed@ =~= produced.subrange(0, (produced.len() - index) as int));
    }
    assert(reversed@ =~= produced);
    string_from_chars(reversed.as_slice())
}


/// The text without its leading whitespace.
pub open spec fn trim_front(s: Seq<char>) -> Seq<char>
    decreases s.len(),
{
    if s.len() > 0 && is_unicode_whitespace(s[0]) {
        trim_front(s.drop_first())
    } else {
        s
    }
}

/// The text without its trailing whitespace.
pub open spec fn trim_back(s: Seq<char>) -> Seq<char>
    decreases s.len(),
{
    if s.len() > 0 && is_unicode_whitespace(s.last()) {
        trim_back(s.drop_last())
    } else {
        s
    }
}

/// The text without leading and trailing whitespace, as `str::trim` gives it.
pub open spec fn trimmed(s: Seq<char>) -> Seq<char> {
    trim_back(trim_front(s))
}

proof fn lemma_trim_front_skip(s: Seq<char>, i: int)
    requires
        0 <= i < s.len(),
        forall|j: int| 0 <= j <= i ==> #[trigger] is_unicode_whitespace(s[j]),
    ensures
        trim_front(s) == trim_front(s.skip(i + 1)),
    decreases i,
{
    if i == 0 {
        assert(s.drop_first() =~= s.skip(1));
    } else {
        lemma_trim_front_skip(s, i - 1);
        let rest = s.skip(i);
        assert(rest[0] == s[i]);
        assert(rest.drop_first() =~= s.skip(i + 1));
    }
}

proof fn lemma_trim_back_take(s: Seq<char>, j: int)
    requires
        0 <= j < s.len(),
        forall|k: int| j <= k < s.len() ==> #[trigger] is_unicode_whitespace(s[k]),
    ensures
        trim_back(s) == trim_back(s.take(j)),
    decreases s.len() - j,
{
    if j == s.len() - 1 {
        assert(s.drop_last() =~= s.take(j));
    } else {
        lemma_trim_back_take(s, j + 1);
        let prefix = s.take(j + 1);
        assert(prefix.last() == s[j]);
        assert(prefix.drop_last() =~= s.take(j));
    }
}

/// `s` with leading and trailing whitespace removed.
pub fn trim_text(s: &str) -> (t: String)
    ensures
        t@ == trimmed(s@),
{
    let chars = chars_of(s);
    let length = chars.len();
    let mut start: usize = 0;
    while start < length && is_whitespace(chars[start])
        invariant
            chars@ == s@,
            length == chars@.len(),
            start <= length,
            forall|j: int| 0 <= j < start ==> #[trigger] is_unicode_whitespace(s@[j]),
        decreases length - start,
    {
        start = start + 1;
    }
    proof {
        if start > 0 {
            lemma_trim_front_skip(s@, start - 1);
        } else {
            assert(s@.skip(0) =~= s@);
        }
        let rest = s@.skip(start as int);
        if start < length {
            assert(rest[0] == s@[start as int]);
        }
    }
    let ghost front = s@.skip(start as int);
    assert(trim_front(s@) == front);
    let mut end: usize = length;
    while end > start && is_whitespace(chars[end - 1])
        invariant
            chars@ == s@,
            length == chars@.len(),
            start <= end <= length,
            front == s@.skip(start as int),
            forall|k: int| end <= k < length ==> #[trigger] is_unicode_whitespace(s@[k]),
        decreases end - start,
    {
        end = end - 1;
    }
    proof {
        let piece = front.take(end - start);
        if end < length {
            assert forall|k: int| end - start <= k < front.len() implies #[trigger]
                is_unicode_whitespace(front[k]) by {
                assert(front[k] == s@[k + start]);
            }
            lemma_trim_back_take(front, end - start);
        } else {
            assert(front.take(end - start) =~= front);
        }
        if end > start {
            assert(piece.last() == s@[end - 1]);
        }
        assert(piece =~= s@.subrange(start as int, end as int));
    }
    string_from_chars(&chars.as_slice()[start..end])
}

/// The ASCII upper-case form of `c`; other characters are unchanged.
pub open spec fn ascii_upper(c: char) -> char {
    if 'a' <= c <= 'z' {
        ((c as u32) - 32) as char
    } else {
        c
    }
}

/// The text with ASCII letters in upper case, as `str::to_ascii_uppercase`
/// gives it.
pub open spec fn ascii_uppercase(s: Seq<char>) -> Seq<char> {
    s.map_values(|c: char| ascii_upper(c))
}

pub fn to_ascii_uppercase(s: &str) -> (t: String)
    ensures
        t@ == ascii_uppercase(s@),
{
    let chars = chars_of(s);
    let mut upper: Vec<char> = Vec::new();
    let mut index: usize = 0;
    while index < chars.len()
        invariant
            chars@ == s@,
            index <= chars@.len(),
            upper@ == ascii_uppercase(s@.take(index as int)),
        decreases chars.len() - index,
    {
        let c = chars[index];
        let u = if 'a' <= c && c <= 'z' {
            let code: u8 = (c as u8) - 32;
            code as char
        } else {
            c
        };
        upper.push(u);
        proof {
            assert(s@.take(index + 1) =~= s@.take(index as int).push(c));
        }
        index = index + 1;
    }
    assert(s@.take(chars@.len() as int) =~= s@);
    string_from_chars(upper.as_slice())
}


/// The pieces of a text between occurrences of `sep`, as `str::split`
/// gives them (one more piece than there are separators).
pub open spec fn pieces(s: Seq<char>, sep: char) -> Seq<Seq<char>>
    decreases s.len(),
{
    if s.len() == 0 {
        seq![Seq::<char>::empty()]
    } else {
        let parts = pieces(s.drop_last(), sep);
        if s.last() == sep {
            parts.push(Seq::empty())
        } else {
            parts.update(parts.len() - 1, parts.last().push(s.last()))
        }
    }
}

pub proof fn lemma_pieces_nonempty(s: Seq<char>, sep: char)
    ensures
        pieces(s, sep).len() >= 1,
    decreases s.len(),
{
    if s.len() > 0 {
        lemma_pieces_nonempty(s.drop_last(), sep);
    }
}

/// The text views of a list of strings.
pub open spec fn string_views(strings: Seq<String>) -> Seq<Seq<char>> {
    strings.map_values(|s: String| s@)
}

/// Splits `s` at every `sep`.
pub fn split_at_char(s: &str, sep: char) -> (parts: Vec<String>)
    ensures
        string_views(parts@) == pieces(s@, sep),
{
    let chars = chars_of(s);
    let mut parts: Vec<String> = Vec::new();
    let mut current: Vec<char> = Vec::new();
    let mut index: usize = 0;
    assert(s@.take(0) =~= Seq::<char>::empty());
    while index < chars.len()
        invariant
            chars@ == s@,
            index <= chars@.len(),
            string_views(parts@).push(current@) == pieces(s@.take(index as int), sep),
        decreases chars.len() - index,
    {
        let c = chars[index];
        let ghost before = string_views(parts@).push(current@);
        proof {
            let prefix = s@.take(index + 1);
            assert(prefix.drop_last() =~= s@.take(index as int));
            assert(prefix.last() == c);
        }
        if c == sep {
            let piece = string_from_chars(current.as_slice());
            parts.push(piece);
            current = Vec::new();
            assert(string_views(parts@).push(current@) =~= before.push(Seq::empty()));
        } else {
            current.push(c);
            assert(string_views(parts@).push(current@) =~= before.update(
                before.len() - 1,
                before.last().push(c),
            ));
        }
        index = index + 1;
    }
    let last = string_from_chars(current.as_slice());
    parts.push(last);
    assert(s@.take(chars@.len() as int) =~= s@);
    assert(string_views(parts@) =~= pieces(s@, sep));
    parts
}

proof fn lemma_fold_agrees_with_upper(x: char, y: char)
    ensures
        (ascii_fold(x) == ascii_fold(y)) == (ascii_upper(x) == ascii_upper(y)),
{
    let xu = x as u32;
    let yu = y as u32;
    if 'A' <= x <= 'Z' {
        assert(ascii_fold(x) as u32 == xu + 32);
    }
    if 'A' <= y <= 'Z' {
        assert(ascii_fold(y) as u32 == yu + 32);
    }
    if 'a' <= x <= 'z' {
        assert(ascii_upper(x) as u32 == xu - 32);
    }
    if 'a' <= y <= 'z' {
        assert(ascii_upper(y) as u32 == yu - 32);
    }
}

/// A capital ASCII letter and its small letter, 32 code points later, are
/// the same letter ignoring ASCII case, and fold to that small letter.
pub proof fn lemma_capital_and_small_letters_match(c: char)
    requires
        'A' <= c <= 'Z',
    ensures
        eq_ascii_ci(seq![c], seq![((c as u32) + 32) as char]),
        ascii_fold(c) == ((c as u32) + 32) as char,
        ascii_fold(((c as u32) + 32) as char) == ((c as u32) + 32) as char,
{
    let small = ((c as u32) + 32) as char;
    assert(small as u32 == (c as u32) + 32);
    assert('a' <= small <= 'z');
    assert(seq![c][0] == c && seq![small][0] == small);
}

/// Two texts are the same ignoring ASCII case exactly when their ASCII
/// upper-case forms are equal, as `str::eq_ignore_ascii_case` says: texts
/// that differ only in the case of ASCII letters match, and no others.
pub proof fn lemma_eq_ascii_ci_is_uppercase_equality(a: Seq<char>, b: Seq<char>)
    ensures
        eq_ascii_ci(a, b) == (ascii_uppercase(a) == ascii_uppercase(b)),
{
    if eq_ascii_ci(a, b) {
        assert forall|i: int| 0 <= i < a.len() implies ascii_uppercase(a)[i] == ascii_uppercase(
            b,
        )[i] by {
            lemma_fold_agrees_with_upper(a[i], b[i]);
        }
        assert(ascii_uppercase(a) =~= ascii_uppercase(b));
    }
    if ascii_uppercase(a) == ascii_uppercase(b) {
        assert(a.len() == ascii_uppercase(a).len());
        assert(b.len() == ascii_uppercase(b).len());
        assert forall|i: int| 0 <= i < a.len() implies #[trigger] ascii_fold(a[i]) == ascii_fold(
            b[i],
        ) by {
            assert(ascii_uppercase(a)[i] == ascii_uppercase(b)[i]);
            lemma_fold_agrees_with_upper(a[i], b[i]);
        }
    }
}

} // verus!
