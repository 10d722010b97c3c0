//! The plain-text secrets file: one `name|hotkey|password` entry per line.
use vstd::prelude::*;

use crate::text::{
    chars_of, decimal, decimal_string, join2, join3, lemma_pieces_nonempty, pieces,
    split_at_char, string_views, trim_text, trimmed,
};

verus! {

/// One entry of a secrets file.
#[derive(Debug, Clone)]
pub struct SecretEntry {
    pub name: String,
    pub hotkey: String,
    pub secret: String,
}

/// The fields of a secrets-file entry.
pub struct SecretView {
    pub name: Seq<char>,
    pub hotkey: Seq<char>,
    pub secret: Seq<char>,
}

impl View for SecretEntry {
    type V = SecretView;

    open spec fn view(&self) -> SecretView {
        SecretView { name: self.name@, hotkey: self.hotkey@, secret: self.secret@ }
    }
}

/// `PathBuf::join` on Unix: an absolute `rest` replaces `base`; otherwise
/// a `/` goes between them unless `base` is empty or already ends in one.
pub open spec fn joined_path(base: Seq<char>, rest: Seq<char>) -> Seq<char> {
    if rest.len() > 0 && rest[0] == '/' {
        rest
    } else if base.len() > 0 && base.last() != '/' {
        base + "/"@ + rest
    } else {
        base + rest
    }
}

/// A path with a leading `~` or `~/` taken as the home directory.
pub open spec fn expanded_path(path: Seq<char>, home: Seq<char>) -> Seq<char> {
    if path == "~"@ {
        home
    } else if path.len() >= 2 && path[0] == '~' && path[1] == '/' {
        joined_path(home, path.skip(2))
    } else {
        path
    }
}

fn join_path(base: &str, rest: &str) -> (path: String)
    ensures
        path@ == joined_path(base@, rest@),
{
    let rest_chars = chars_of(rest);
    if rest_chars.len() > 0 && rest_chars[0] == '/' {
        return String::from_str(rest);
    }
    let base_chars = chars_of(base);
    if base_chars.len() > 0 && base_chars[base_chars.len() - 1] != '/' {
        return join3(base, "/", rest);
    }
    join2(base, rest)
}

/// Expands a leading `~` to `home`, the value of `HOME` (or "." when it is
/// not set).
pub fn expand_tilde(path: &str, home: &str) -> (expanded: String)
    ensures
        expanded@ == expanded_path(path@, home@),
{
    let chars = chars_of(path);
    if chars.len() == 1 && chars[0] == '~' {
        proof {
            reveal_strlit("~");
            assert(path@ =~= "~"@);
        }
        return String::from_str(home);
    }
    proof {
        reveal_strlit("~");
        if path@ == "~"@ {
            assert(path@.len() == 1);
        }
    }
    if chars.len() >= 2 && chars[0] == '~' && chars[1] == '/' {
        let rest = crate::text::string_from_chars(&chars.as_slice()[2..chars.len()]);
        assert(rest@ =~= path@.skip(2));
        return join_path(home, rest.as_str());
    }
    String::from_str(path)
}

/// Where the secrets file is unless another is named.
pub const DEFAULT_SECRETS_FILE: &'static str = "~/.config/password-out/secrets.txt";

/// The default secrets file under `home`.
pub fn default_secrets_file(home: &str) -> (path: String)
    ensures
        path@ == expanded_path(DEFAULT_SECRETS_FILE@, home@),
{
    expand_tilde(DEFAULT_SECRETS_FILE, home)
}

/// A path given on the command line, `~` expanded.
pub fn path_from_arg(path: &str, home: &str) -> (expanded: String)
    ensures
        expanded@ == expanded_path(path@, home@),
{
    expand_tilde(path, home)
}

/// The lines of a text as `str::lines` yields them before trimming: the
/// pieces between line feeds, without the empty piece after a final line
/// feed.
pub open spec fn text_lines(content: Seq<char>) -> Seq<Seq<char>> {
    let parts = pieces(content, '\n');
    if parts.last().len() == 0 {
        parts.drop_last()
    } else {
        parts
    }
}

/// The index of the first `|` in a text.
pub open spec fn first_bar(s: Seq<char>) -> Option<int>
    decreases s.len(),
{
    if s.len() == 0 {
        None
    } else if s[0] == '|' {
        Some(0)
    } else {
        match first_bar(s.drop_first()) {
            Some(i) => Some(i + 1),
            None => None,
        }
    }
}

proof fn lemma_first_bar(s: Seq<char>)
    ensures
        first_bar(s) matches Some(i) ==> 0 <= i < s.len() && s[i] == '|',
    decreases s.len(),
{
    if s.len() > 0 && s[0] != '|' {
        lemma_first_bar(s.drop_first());
    }
}

/// `splitn(3, '|')` when it gives three fields.
pub open spec fn three_fields(line: Seq<char>) -> Option<(Seq<char>, Seq<char>, Seq<char>)> {
    match first_bar(line) {
        None => None,
        Some(i) => match first_bar(line.skip(i + 1)) {
            None => None,
            Some(j) => Some((line.take(i), line.subrange(i + 1, i + 1 + j), line.skip(i + 2 + j))),
        },
    }
}

pub open spec fn invalid_line_message(number: nat, path: Seq<char>) -> Seq<char> {
    "invalid line "@ + decimal(number) + " in "@ + path + ". Expected: name|hotkey|password"@
}

/// What line `number` of the file holds: nothing (blank or a `#` comment),
/// an entry, or why it is refused.
pub open spec fn parsed_line(line: Seq<char>, number: nat, path: Seq<char>) -> Result<
    Option<SecretView>,
    Seq<char>,
> {
    let text = trimmed(line);
    if text.len() == 0 || text[0] == '#' {
        Ok(None)
    } else {
        match three_fields(text) {
            None => Err(invalid_line_message(number, path)),
            Some((name, hotkey, secret)) => if trimmed(name).len() == 0 {
                Err("line "@ + decimal(number) + " has empty name"@)
            } else if trimmed(hotkey).len() == 0 {
                Err("line "@ + decimal(number) + " has empty hotkey"@)
            } else if trimmed(secret).len() == 0 {
                Err("line "@ + decimal(number) + " has empty password"@)
            } else {
                Ok(
                    Some(
                        SecretView {
                            name: trimmed(name),
                            hotkey: trimmed(hotkey),
                            secret: trimmed(secret),
                        },
                    ),
                )
            },
        }
    }
}

/// The entries of the lines, numbered from 1; the first refused line ends
/// it.
pub open spec fn parsed_lines(lines: Seq<Seq<char>>, path: Seq<char>) -> Result<
    Seq<SecretView>,
    Seq<char>,
>
    decreases lines.len(),
{
    if lines.len() == 0 {
        Ok(Seq::empty())
    } else {
        match parsed_lines(lines.drop_last(), path) {
            Err(problem) => Err(problem),
            Ok(entries) => match parsed_line(lines.last(), lines.len(), path) {
                Err(problem) => Err(problem),
                Ok(None) => Ok(entries),
                Ok(Some(entry)) => Ok(entries.push(entry)),
            },
        }
    }
}

/// The entries of a secrets file, or why it is refused. `path` names the
/// file in messages.
pub open spec fn parsed_secrets(content: Seq<char>, path: Seq<char>) -> Result<
    Seq<SecretView>,
    Seq<char>,
> {
    match parsed_lines(text_lines(content), path) {
        Err(problem) => Err(problem),
        Ok(entries) => if entries.len() == 0 {
            Err("no entries found in "@ + path)
        } else {
            Ok(entries)
        },
    }
}

proof fn lemma_lines_error_persists(lines: Seq<Seq<char>>, k: int, path: Seq<char>)
    requires
        0 <= k <= lines.len(),
        parsed_lines(lines.take(k), path) is Err,
    ensures
        parsed_lines(lines, path) == parsed_lines(lines.take(k), path),
    decreases lines.len() - k,
{
    if k == lines.len() {
        assert(lines.take(k) =~= lines);
    } else {
        let shorter = lines.drop_last();
        assert(shorter.take(k) =~= lines.take(k));
        lemma_lines_error_persists(shorter, k, path);
    }
}

/// The position of the first `|` in `chars` at or after `from`.
fn find_bar(chars: &Vec<char>, from: usize) -> (found: Option<usize>)
    requires
        from <= chars@.len(),
    ensures
        match first_bar(chars@.skip(from as int)) {
            Some(i) => found matches Some(position) && position == from + i,
            None => found is None,
        },
        found matches Some(position) ==> from <= position < chars@.len(),
    decreases chars@.len() - from,
{
    proof {
        lemma_first_bar(chars@.skip(from as int));
    }
    if from == chars.len() {
        assert(chars@.skip(from as int).len() == 0);
        return None;
    }
    let ghost rest = chars@.skip(from as int);
    assert(rest[0] == chars@[from as int]);
    assert(rest.drop_first() =~= chars@.skip(from + 1));
    if chars[from] == '|' {
        return Some(from);
    }
    find_bar(chars, from + 1)
}

fn text_of(chars: &Vec<char>, start: usize, end: usize) -> (text: String)
    requires
        start <= end <= chars@.len(),
    ensures
        text@ == chars@.subrange(start as int, end as int),
{
    crate::text::string_from_chars(&chars.as_slice()[start..end])
}

/// Reads one line of a secrets file.
fn parse_line(line: &str, number: usize, path: &str) -> (result: Result<Option<SecretEntry>, String>)
    ensures
        match parsed_line(line@, number as nat, path@) {
            Ok(Some(entry)) => result matches Ok(Some(read)) && read@ == entry,
            Ok(None) => result matches Ok(None),
            Err(problem) => result matches Err(message) && message@ == problem,
        },
{
    let text = trim_text(line);
    let chars = chars_of(text.as_str());
    if chars.len() == 0 || chars[0] == '#' {
        return Ok(None);
    }
    assert(chars@.skip(0) =~= chars@);
    let first = find_bar(&chars, 0);
    let second = match first {
        Some(i) => find_bar(&chars, i + 1),
        None => None,
    };
    proof {
        assert(chars@ == text@);
        assert(first_bar(text@) == match first {
            Some(i) => Some(i as int),
            None => None::<int>,
        });
    }
    let (i, k) = match (first, second) {
        (Some(i), Some(k)) => (i, k),
        _ => {
            let mut message = join2("invalid line ", decimal_string(number as u64).as_str());
            message.append(" in ");
            message.append(path);
            message.append(". Expected: name|hotkey|password");
            return Err(message);
        },
    };
    let name_part = text_of(&chars, 0, i);
    let hotkey_part = text_of(&chars, i + 1, k);
    let secret_part = text_of(&chars, k + 1, chars.len());
    proof {
        let j = k - (i + 1);
        assert(name_part@ =~= text@.take(i as int));
        assert(hotkey_part@ =~= text@.subrange(i + 1, i + 1 + j));
        assert(secret_part@ =~= text@.skip(i + 2 + j));
    }
    let name = trim_text(name_part.as_str());
    let hotkey = trim_text(hotkey_part.as_str());
    let secret = trim_text(secret_part.as_str());
    let number_text = decimal_string(number as u64);
    if name.unicode_len() == 0 {
        return Err(join3("line ", number_text.as_str(), " has empty name"));
    }
    if hotkey.unicode_len() == 0 {
        return Err(join3("line ", number_text.as_str(), " has empty hotkey"));
    }
    if secret.unicode_len() == 0 {
        return Err(join3("line ", number_text.as_str(), " has empty password"));
    }
    Ok(Some(SecretEntry { name, hotkey, secret }))
}

pub open spec fn secret_views(entries: Seq<SecretEntry>) -> Seq<SecretView> {
    entries.map_values(|entry: SecretEntry| entry@)
}

/// Reads the entries of a secrets file's `content`; `path` names the file in
/// messages. Blank lines and lines starting with `#` are skipped.
pub fn parse_secret_entries(content: &str, path: &str) -> (result: Result<
    Vec<SecretEntry>,
    String,
>)
    ensures
        match parsed_secrets(content@, path@) {
            Ok(entries) => result matches Ok(read) && secret_views(read@) == entries,
            Err(problem) => result matches Err(message) && message@ == problem,
        },
{
    let mut lines = split_at_char(content, '\n');
    proof {
        lemma_pieces_nonempty(content@, '\n');
    }
    let count = lines.len();
    if lines[count - 1].unicode_len() == 0 {
        lines.pop();
        assert(string_views(lines@) =~= pieces(content@, '\n').drop_last());
    }
    let ghost all = text_lines(content@);
    assert(string_views(lines@) == all);
    let mut entries: Vec<SecretEntry> = Vec::new();
    let mut index: usize = 0;
    assert(all.take(0) =~= Seq::<Seq<char>>::empty());
    assert(secret_views(entries@) =~= Seq::<SecretView>::empty());
    while index < lines.len()
        invariant
            string_views(lines@) == all,
            all == text_lines(content@),
            index <= lines@.len(),
            parsed_lines(all.take(index as int), path@) == Ok::<Seq<SecretView>, Seq<char>>(
                secret_views(entries@),
            ),
        decreases lines@.len() - index,
    {
        let ghost prefix = all.take(index + 1);
        proof {
            assert(prefix.drop_last() =~= all.take(index as int));
            assert(prefix.last() == lines@[index as int]@);
        }
        match parse_line(lines[index].as_str(), index + 1, path) {
            Ok(Some(entry)) => {
                let ghost before = secret_views(entries@);
                let ghost added = entry@;
                entries.push(entry);
                assert(secret_views(entries@) =~= before.push(added));
            },
            Ok(None) => {},
            Err(error) => {
                proof {
                    assert(parsed_lines(prefix, path@) == Err::<Seq<SecretView>, Seq<char>>(
                        error@,
                    ));
                    lemma_lines_error_persists(all, index + 1, path@);
                    assert(parsed_lines(all, path@) is Err);
                    assert(parsed_secrets(content@, path@) == Err::<Seq<SecretView>, Seq<char>>(
                        error@,
                    ));
                }
                return Err(error);
            },
        }
        index = index + 1;
    }
    assert(all.take(lines@.len() as int) =~= all);
    if entries.len() == 0 {
        return Err(join2("no entries found in ", path));
    }
    Ok(entries)
}

} // verus!
