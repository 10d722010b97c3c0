use vstd::prelude::*;

use crate::expiration::{invalid_date_message, parsed_iso_julian_day, validate_expiration_date};
use crate::text::{
    ascii_uppercase, chars_of, contains_line_break, eq_ascii_ci, eq_ignore_ascii_case,
    has_line_break, is_blank, is_blank_text, join3, lemma_eq_ascii_ci_is_uppercase_equality,
};
use crate::vault::format::{
    entry_views, is_account, option_text, EntryView, PayloadView, VaultEntry, VaultPayload,
};

verus! {

/// The lower-case form `str::to_lowercase` gives a text.
pub uninterp spec fn unicode_lowercase(text: Seq<char>) -> Seq<char>;

/// `str::to_lowercase`: full Unicode lower-casing. The contract names the
/// result without restating Unicode's case tables.
#[verifier::external_body]
fn to_lowercase(text: &str) -> (lower: String)
    ensures
        lower@ == unicode_lowercase(text@),
{
    text.to_lowercase()
}

/// Whether 16 bytes are a random (version 4) UUID of the RFC 4122
/// variant: the high half of byte 6 is 4, the top two bits of byte 8 are
/// `10`.
pub open spec fn random_entry_id(id: Seq<u8>) -> bool {
    &&& id.len() == 16
    &&& id[6] / 16 == 4
    &&& id[8] / 64 == 2
}

/// A random entry identifier is never the nil UUID.
pub proof fn lemma_random_entry_id_not_nil(id: Seq<u8>)
    requires
        random_entry_id(id),
    ensures
        id != Seq::new(16, |i: int| 0u8),
{
    assert(id[6] != 0u8);
}

/// `Uuid::new_v4` (uuid), as its bytes: random bytes with the version and
/// variant bits set as `random_entry_id` says.
#[verifier::external_body]
fn new_entry_id() -> (id: [u8; 16])
    ensures
        random_entry_id(id@),
{
    uuid::Uuid::new_v4().into_bytes()
}

/// Lexicographic comparison of two texts by code point, which is the order
/// of `String`: -1, 0 or 1.
pub open spec fn text_order(a: Seq<char>, b: Seq<char>) -> int
    decreases a.len(),
{
    if a.len() == 0 && b.len() == 0 {
        0
    } else if a.len() == 0 {
        -1
    } else if b.len() == 0 {
        1
    } else if (a[0] as u32) < (b[0] as u32) {
        -1
    } else if (a[0] as u32) > (b[0] as u32) {
        1
    } else {
        text_order(a.drop_first(), b.drop_first())
    }
}

/// The order of entries: by lower-cased domain, then lower-cased user name.
pub open spec fn entry_order(a: EntryView, b: EntryView) -> int {
    let by_domain = text_order(unicode_lowercase(a.domain), unicode_lowercase(b.domain));
    if by_domain != 0 {
        by_domain
    } else {
        text_order(unicode_lowercase(a.username), unicode_lowercase(b.username))
    }
}

/// Where a stable insertion places `entry` in an ordered list: before the
/// first element that comes after it.
pub open spec fn insert_position(sorted: Seq<EntryView>, entry: EntryView) -> int
    decreases sorted.len(),
{
    if sorted.len() == 0 {
        0
    } else if entry_order(sorted[0], entry) > 0 {
        0
    } else {
        1 + insert_position(sorted.drop_first(), entry)
    }
}

/// The stable sort of `entries` by `entry_order`, as `slice::sort_by` gives
/// it.
pub open spec fn sort_entries(entries: Seq<EntryView>) -> Seq<EntryView>
    decreases entries.len(),
{
    if entries.len() == 0 {
        Seq::empty()
    } else {
        let sorted = sort_entries(entries.drop_last());
        sorted.insert(insert_position(sorted, entries.last()), entries.last())
    }
}

proof fn lemma_insert_position_bounds(sorted: Seq<EntryView>, entry: EntryView)
    ensures
        0 <= insert_position(sorted, entry) <= sorted.len(),
    decreases sorted.len(),
{
    if sorted.len() > 0 {
        lemma_insert_position_bounds(sorted.drop_first(), entry);
    }
}

/// Sorting keeps the entries: the sorted list holds the same entries, each
/// as often as before.
pub proof fn lemma_sort_entries_permutation(entries: Seq<EntryView>)
    ensures
        sort_entries(entries).to_multiset() == entries.to_multiset(),
        sort_entries(entries).len() == entries.len(),
    decreases entries.len(),
{
    broadcast use vstd::seq_lib::to_multiset_insert, vstd::seq_lib::to_multiset_build;

    if entries.len() > 0 {
        let rest = entries.drop_last();
        lemma_sort_entries_permutation(rest);
        let sorted = sort_entries(rest);
        lemma_insert_position_bounds(sorted, entries.last());
        assert(rest.push(entries.last()) =~= entries);
    } else {
        assert(entries =~= Seq::<EntryView>::empty());
    }
}

/// Whether entries are in account order.
pub open spec fn sorted_by_account(entries: Seq<EntryView>) -> bool {
    forall|i: int, j: int|
        0 <= i < j < entries.len() ==> entry_order(#[trigger] entries[i], #[trigger] entries[j])
            <= 0
}

proof fn lemma_text_order_antisymmetric(a: Seq<char>, b: Seq<char>)
    ensures
        text_order(a, b) == -text_order(b, a),
        -1 <= text_order(a, b) <= 1,
        text_order(a, b) == 0 ==> a == b,
    decreases a.len(),
{
    if a.len() > 0 && b.len() > 0 {
        lemma_text_order_antisymmetric(a.drop_first(), b.drop_first());
        if (a[0] as u32) == (b[0] as u32) {
            vstd::utf8::char_u32_cast(a[0], a[0] as u32);
            vstd::utf8::char_u32_cast(b[0], b[0] as u32);
            if text_order(a, b) == 0 {
                assert(a =~= seq![a[0]] + a.drop_first());
                assert(b =~= seq![b[0]] + b.drop_first());
            }
        }
    } else if a.len() == 0 && b.len() == 0 {
        assert(a =~= b);
    }
}

proof fn lemma_text_order_transitive(a: Seq<char>, b: Seq<char>, c: Seq<char>)
    requires
        text_order(a, b) <= 0,
        text_order(b, c) <= 0,
    ensures
        text_order(a, c) <= 0,
    decreases a.len(),
{
    if a.len() > 0 && b.len() > 0 && c.len() > 0 {
        if (a[0] as u32) == (b[0] as u32) && (b[0] as u32) == (c[0] as u32) {
            lemma_text_order_transitive(a.drop_first(), b.drop_first(), c.drop_first());
        }
    }
}

proof fn lemma_entry_order_facts(a: EntryView, b: EntryView, c: EntryView)
    ensures
        entry_order(a, b) == -entry_order(b, a),
        entry_order(a, b) <= 0 && entry_order(b, c) <= 0 ==> entry_order(a, c) <= 0,
{
    let (da, db, dc) = (
        unicode_lowercase(a.domain),
        unicode_lowercase(b.domain),
        unicode_lowercase(c.domain),
    );
    let (ua, ub, uc) = (
        unicode_lowercase(a.username),
        unicode_lowercase(b.username),
        unicode_lowercase(c.username),
    );
    lemma_text_order_antisymmetric(da, db);
    lemma_text_order_antisymmetric(db, dc);
    lemma_text_order_antisymmetric(da, dc);
    lemma_text_order_antisymmetric(ua, ub);
    lemma_text_order_antisymmetric(ub, uc);
    lemma_text_order_antisymmetric(ua, uc);
    if entry_order(a, b) <= 0 && entry_order(b, c) <= 0 {
        if text_order(da, db) <= 0 && text_order(db, dc) <= 0 {
            lemma_text_order_transitive(da, db, dc);
        }
        if text_order(ua, ub) <= 0 && text_order(ub, uc) <= 0 {
            lemma_text_order_transitive(ua, ub, uc);
        }
    }
}

proof fn lemma_insert_position_split(sorted: Seq<EntryView>, entry: EntryView)
    ensures
        forall|j: int|
            0 <= j < insert_position(sorted, entry) ==> entry_order(#[trigger] sorted[j], entry)
                <= 0,
        insert_position(sorted, entry) < sorted.len() ==> entry_order(
            sorted[insert_position(sorted, entry)],
            entry,
        ) > 0,
    decreases sorted.len(),
{
    if sorted.len() > 0 && entry_order(sorted[0], entry) <= 0 {
        let rest = sorted.drop_first();
        lemma_insert_position_split(rest, entry);
        lemma_insert_position_bounds(rest, entry);
        assert forall|j: int|
            0 <= j < insert_position(sorted, entry) implies entry_order(
            #[trigger] sorted[j],
            entry,
        ) <= 0 by {
            if j > 0 {
                assert(sorted[j] == rest[j - 1]);
            }
        }
        if insert_position(sorted, entry) < sorted.len() {
            assert(sorted[insert_position(sorted, entry)] == rest[insert_position(rest, entry)]);
        }
    }
}

/// Sorting puts entries in account order.
pub proof fn lemma_sort_entries_sorted(entries: Seq<EntryView>)
    ensures
        sorted_by_account(sort_entries(entries)),
    decreases entries.len(),
{
    if entries.len() > 0 {
        let rest = entries.drop_last();
        let entry = entries.last();
        lemma_sort_entries_sorted(rest);
        let sorted = sort_entries(rest);
        let position = insert_position(sorted, entry);
        lemma_insert_position_bounds(sorted, entry);
        lemma_insert_position_split(sorted, entry);
        let result = sorted.insert(position, entry);
        assert forall|i: int, j: int| 0 <= i < j < result.len() implies entry_order(
            #[trigger] result[i],
            #[trigger] result[j],
        ) <= 0 by {
            if j < position {
                assert(result[i] == sorted[i] && result[j] == sorted[j]);
            } else if j == position {
                assert(result[i] == sorted[i]);
            } else if i < position {
                assert(result[i] == sorted[i] && result[j] == sorted[j - 1]);
                lemma_entry_order_facts(sorted[i], entry, sorted[position]);
                lemma_entry_order_facts(entry, sorted[position], sorted[j - 1]);
                lemma_entry_order_facts(sorted[i], sorted[position], sorted[j - 1]);
                if j - 1 > position {
                    assert(entry_order(sorted[position], sorted[j - 1]) <= 0);
                }
            } else if i == position {
                assert(result[j] == sorted[j - 1]);
                lemma_entry_order_facts(entry, sorted[position], sorted[j - 1]);
                if j - 1 > position {
                    assert(entry_order(sorted[position], sorted[j - 1]) <= 0);
                }
            } else {
                assert(result[i] == sorted[i - 1] && result[j] == sorted[j - 1]);
            }
        }
    }
}

proof fn lemma_text_order_skip(a: Seq<char>, b: Seq<char>, i: int)
    requires
        0 <= i < a.len(),
        i < b.len(),
        a[i] == b[i],
    ensures
        text_order(a.skip(i), b.skip(i)) == text_order(a.skip(i + 1), b.skip(i + 1)),
{
    assert(a.skip(i).drop_first() =~= a.skip(i + 1));
    assert(b.skip(i).drop_first() =~= b.skip(i + 1));
}

fn compare_text(a: &str, b: &str) -> (order: i8)
    ensures
        order as int == text_order(a@, b@),
{
    let left = chars_of(a);
    let right = chars_of(b);
    let mut index: usize = 0;
    assert(a@.skip(0) =~= a@ && b@.skip(0) =~= b@);
    while index < left.len() && index < right.len() && left[index] == right[index]
        invariant
            left@ == a@,
            right@ == b@,
            index <= left@.len(),
            index <= right@.len(),
            text_order(a@, b@) == text_order(a@.skip(index as int), b@.skip(index as int)),
        decreases left@.len() - index,
    {
        proof {
            lemma_text_order_skip(a@, b@, index as int);
        }
        index = index + 1;
    }
    proof {
        assert(a@.skip(index as int).len() == a@.len() - index);
        assert(b@.skip(index as int).len() == b@.len() - index);
        if index < a@.len() && index < b@.len() {
            assert(a@.skip(index as int)[0] == a@[index as int]);
            assert(b@.skip(index as int)[0] == b@[index as int]);
        }
    }
    if index == left.len() && index == right.len() {
        0
    } else if index == left.len() {
        -1
    } else if index == right.len() {
        1
    } else if (left[index] as u32) < (right[index] as u32) {
        -1
    } else {
        proof {
            vstd::utf8::char_u32_cast(left[index as int], left[index as int] as u32);
            vstd::utf8::char_u32_cast(right[index as int], right[index as int] as u32);
        }
        1
    }
}

fn compare_entries(a: &VaultEntry, b: &VaultEntry) -> (order: i8)
    ensures
        order as int == entry_order(a@, b@),
{
    let a_domain = to_lowercase(a.domain.as_str());
    let b_domain = to_lowercase(b.domain.as_str());
    let by_domain = compare_text(a_domain.as_str(), b_domain.as_str());
    if by_domain != 0 {
        return by_domain;
    }
    let a_username = to_lowercase(a.username.as_str());
    let b_username = to_lowercase(b.username.as_str());
    compare_text(a_username.as_str(), b_username.as_str())
}

proof fn lemma_insert_position(sorted: Seq<EntryView>, entry: EntryView, i: int)
    requires
        0 <= i <= sorted.len(),
        forall|j: int| 0 <= j < i ==> entry_order(#[trigger] sorted[j], entry) <= 0,
        i == sorted.len() || entry_order(sorted[i], entry) > 0,
    ensures
        insert_position(sorted, entry) == i,
    decreases sorted.len(),
{
    if sorted.len() > 0 && i > 0 {
        assert(entry_order(sorted[0], entry) <= 0);
        let rest = sorted.drop_first();
        assert forall|j: int| 0 <= j < i - 1 implies entry_order(#[trigger] rest[j], entry) <= 0 by {
            assert(rest[j] == sorted[j + 1]);
        }
        lemma_insert_position(rest, entry, i - 1);
    }
}

/// Sorts entries by lower-cased domain, then lower-cased user name,
/// keeping the order of equal entries.
pub fn sort_by_account(entries: &mut Vec<VaultEntry>)
    ensures
        entry_views(final(entries)@) == sort_entries(entry_views(old(entries)@)),
{
    let mut remaining: Vec<VaultEntry> = Vec::new();
    std::mem::swap(entries, &mut remaining);
    let count = remaining.len();
    let ghost given = entry_views(remaining@);
    let ghost total = remaining@.len();
    let mut taken: usize = 0;
    assert(given.take(0) =~= Seq::<EntryView>::empty());
    while remaining.len() > 0
        invariant
            total == given.len(),
            total == count,
            taken + remaining@.len() == total,
            entry_views(remaining@) == given.skip(taken as int),
            entry_views(entries@) == sort_entries(given.take(taken as int)),
        decreases remaining@.len(),
    {
        let ghost pending = remaining@;
        let entry = remaining.remove(0);
        proof {
            assert(entry_views(pending)[0] == pending[0]@);
            assert(given.skip(taken as int)[0] == given[taken as int]);
            assert(entry_views(remaining@) =~= entry_views(pending).drop_first());
            assert(given.skip(taken as int).drop_first() =~= given.skip(taken + 1));
        }
        let mut position: usize = 0;
        while position < entries.len() && compare_entries(&entries[position], &entry) <= 0
            invariant
                position <= entries@.len(),
                forall|j: int|
                    0 <= j < position ==> entry_order(#[trigger] entry_views(entries@)[j], entry@)
                        <= 0,
            decreases entries@.len() - position,
        {
            position = position + 1;
        }
        let ghost before = entry_views(entries@);
        proof {
            lemma_insert_position(before, entry@, position as int);
        }
        entries.insert(position, entry);
        assert(entry_views(entries@) =~= before.insert(position as int, entry@));
        let ghost prefix = given.take(taken + 1);
        assert(prefix.drop_last() =~= given.take(taken as int));
        assert(prefix.last() == entry@);
        taken = taken + 1;
    }
    assert(given.take(total as int) =~= given);
}

pub open spec fn text_problem(
    value: Seq<char>,
    empty_message: Seq<char>,
    break_message: Seq<char>,
) -> Option<Seq<char>> {
    if is_blank_text(value) {
        Some(empty_message)
    } else if has_line_break(value) {
        Some(break_message)
    } else {
        None
    }
}

pub open spec fn domain_problem(domain: Seq<char>) -> Option<Seq<char>> {
    text_problem(
        domain,
        "entry domain cannot be empty"@,
        "entry domain cannot contain line breaks"@,
    )
}

pub open spec fn username_problem(username: Seq<char>) -> Option<Seq<char>> {
    text_problem(
        username,
        "entry username cannot be empty"@,
        "entry username cannot contain line breaks"@,
    )
}

pub open spec fn hotkey_problem(hotkey: Seq<char>) -> Option<Seq<char>> {
    text_problem(
        hotkey,
        "entry hotkey cannot be empty"@,
        "entry hotkey cannot contain line breaks"@,
    )
}

pub open spec fn duplicate_account_message(domain: Seq<char>, username: Seq<char>) -> Seq<char> {
    "an entry for '"@ + domain + "\\"@ + username + "' already exists"@
}

pub open spec fn duplicate_hotkey_message(hotkey: Seq<char>) -> Seq<char> {
    "hotkey '"@ + hotkey + "' is already assigned"@
}

/// A payload with one more entry, the entries sorted by account.
pub open spec fn added_payload(
    payload: PayloadView,
    id: Seq<u8>,
    domain: Seq<char>,
    username: Seq<char>,
    hotkey: Seq<char>,
    secret: Seq<char>,
    expires_on: Option<Seq<char>>,
) -> PayloadView {
    PayloadView {
        clipboard_clear_seconds: payload.clipboard_clear_seconds,
        entries: sort_entries(
            payload.entries.push(EntryView { id, domain, username, hotkey, secret, expires_on }),
        ),
    }
}

/// Adding an entry keeps every entry there was, adds the new one and
/// nothing else, leaves the settings as they were, and leaves the entries
/// in account order.
pub proof fn lemma_add_keeps_entries(
    payload: PayloadView,
    id: Seq<u8>,
    domain: Seq<char>,
    username: Seq<char>,
    hotkey: Seq<char>,
    secret: Seq<char>,
    expires_on: Option<Seq<char>>,
)
    ensures
        ({
            let added = added_payload(payload, id, domain, username, hotkey, secret, expires_on);
            let entry = EntryView { id, domain, username, hotkey, secret, expires_on };
            &&& added.entries.to_multiset() == payload.entries.to_multiset().insert(entry)
            &&& added.entries.len() == payload.entries.len() + 1
            &&& added.clipboard_clear_seconds == payload.clipboard_clear_seconds
            &&& sorted_by_account(added.entries)
        }),
{
    broadcast use vstd::seq_lib::to_multiset_build;

    let entry = EntryView { id, domain, username, hotkey, secret, expires_on };
    lemma_sort_entries_permutation(payload.entries.push(entry));
    lemma_sort_entries_sorted(payload.entries.push(entry));
}

/// The first reason an entry cannot be added to a payload.
pub open spec fn add_entry_problem(
    payload: PayloadView,
    domain: Seq<char>,
    username: Seq<char>,
    hotkey: Seq<char>,
    secret: Seq<char>,
    expires_on: Option<Seq<char>>,
) -> Option<Seq<char>> {
    if domain_problem(domain) is Some {
        domain_problem(domain)
    } else if username_problem(username) is Some {
        username_problem(username)
    } else if hotkey_problem(hotkey) is Some {
        hotkey_problem(hotkey)
    } else if secret.len() == 0 {
        Some("entry secret cannot be empty"@)
    } else if expires_on matches Some(date) && parsed_iso_julian_day(date) is None {
        Some(invalid_date_message(expires_on.unwrap()))
    } else if exists|i: int|
        0 <= i < payload.entries.len() && is_account(#[trigger] payload.entries[i], domain, username) {
        Some(duplicate_account_message(domain, username))
    } else if exists|i: int|
        0 <= i < payload.entries.len() && eq_ascii_ci(#[trigger] payload.entries[i].hotkey, hotkey) {
        Some(duplicate_hotkey_message(hotkey))
    } else {
        None
    }
}

fn validate_text(value: &str, empty_message: &str, break_message: &str) -> (result: Result<
    (),
    String,
>)
    ensures
        match text_problem(value@, empty_message@, break_message@) {
            Some(message) => result matches Err(error) && error@ == message,
            None => result is Ok,
        },
{
    if is_blank(value) {
        return Err(String::from_str(empty_message));
    }
    if contains_line_break(value) {
        return Err(String::from_str(break_message));
    }
    Ok(())
}

pub fn validate_domain(domain: &str) -> (result: Result<(), String>)
    ensures
        match domain_problem(domain@) {
            Some(message) => result matches Err(error) && error@ == message,
            None => result is Ok,
        },
{
    validate_text(domain, "entry domain cannot be empty", "entry domain cannot contain line breaks")
}

pub fn validate_username(username: &str) -> (result: Result<(), String>)
    ensures
        match username_problem(username@) {
            Some(message) => result matches Err(error) && error@ == message,
            None => result is Ok,
        },
{
    validate_text(
        username,
        "entry username cannot be empty",
        "entry username cannot contain line breaks",
    )
}

pub fn validate_hotkey(hotkey: &str) -> (result: Result<(), String>)
    ensures
        match hotkey_problem(hotkey@) {
            Some(message) => result matches Err(error) && error@ == message,
            None => result is Ok,
        },
{
    validate_text(hotkey, "entry hotkey cannot be empty", "entry hotkey cannot contain line breaks")
}

pub fn validate_secret(secret: &str) -> (result: Result<(), String>)
    ensures
        secret@.len() == 0 ==> (result matches Err(error) && error@
            == "entry secret cannot be empty"@),
        secret@.len() > 0 ==> result is Ok,
{
    if secret.is_empty() {
        return Err(String::from_str("entry secret cannot be empty"));
    }
    Ok(())
}

fn hotkey_assigned(payload: &VaultPayload, hotkey: &str) -> (found: bool)
    ensures
        found == exists|i: int|
            0 <= i < payload@.entries.len() && eq_ascii_ci(
                #[trigger] payload@.entries[i].hotkey,
                hotkey@,
            ),
{
    let mut index: usize = 0;
    while index < payload.entries.len()
        invariant
            index <= payload.entries@.len(),
            forall|j: int|
                0 <= j < index ==> !eq_ascii_ci(#[trigger] payload@.entries[j].hotkey, hotkey@),
        decreases payload.entries@.len() - index,
    {
        if eq_ignore_ascii_case(payload.entries[index].hotkey.as_str(), hotkey) {
            assert(eq_ascii_ci(payload@.entries[index as int].hotkey, hotkey@));
            return true;
        }
        index = index + 1;
    }
    false
}

/// Adds a credential to a payload and keeps the entries sorted by
/// lower-cased domain, then lower-cased user name.
///
/// Rejects blank or multi-line domains, user names and hotkeys, an empty
/// secret, an expiration date that is not a YYYY-MM-DD calendar date, an
/// account (`domain\username`, ASCII case ignored) already present, and a
/// hotkey already assigned (ASCII case ignored). A rejected entry leaves the
/// payload unchanged.
pub fn add_entry(
    payload: &mut VaultPayload,
    domain: String,
    username: String,
    hotkey: String,
    secret: String,
    expires_on: Option<String>,
) -> (result: Result<(), String>)
    ensures
        match add_entry_problem(
            old(payload)@,
            domain@,
            username@,
            hotkey@,
            secret@,
            option_text(expires_on),
        ) {
            Some(message) => (result matches Err(error) && error@ == message) && final(payload)@
                == old(payload)@,
            None => result is Ok && exists|id: Seq<u8>|
                random_entry_id(id) && final(payload)@ == added_payload(
                    old(payload)@,
                    id,
                    domain@,
                    username@,
                    hotkey@,
                    secret@,
                    option_text(expires_on),
                ),
        },
{
    match validate_domain(domain.as_str()) {
        Ok(()) => {},
        Err(error) => {
            return Err(error);
        },
    }
    match validate_username(username.as_str()) {
        Ok(()) => {},
        Err(error) => {
            return Err(error);
        },
    }
    match validate_hotkey(hotkey.as_str()) {
        Ok(()) => {},
        Err(error) => {
            return Err(error);
        },
    }
    match validate_secret(secret.as_str()) {
        Ok(()) => {},
        Err(error) => {
            return Err(error);
        },
    }
    let date: Option<&str> = match &expires_on {
        Some(text) => Some(text.as_str()),
        None => None,
    };
    match validate_expiration_date(date) {
        Ok(()) => {},
        Err(error) => {
            return Err(error);
        },
    }
    if payload.contains_account(domain.as_str(), username.as_str()) {
        proof {
            let i = choose|i: int|
                0 <= i < payload.entries@.len() && is_account(
                    #[trigger] payload.entries@[i]@,
                    domain@,
                    username@,
                );
            assert(payload@.entries[i] == payload.entries@[i]@);
        }
        let mut message = join3("an entry for '", domain.as_str(), "\\");
        message.append(username.as_str());
        message.append("' already exists");
        return Err(message);
    }
    if hotkey_assigned(payload, hotkey.as_str()) {
        return Err(join3("hotkey '", hotkey.as_str(), "' is already assigned"));
    }
    let ghost before = payload@;
    let entry = VaultEntry { id: new_entry_id(), domain, username, hotkey, secret, expires_on };
    let ghost added = entry@;
    payload.entries.push(entry);
    assert(entry_views(payload.entries@) =~= before.entries.push(added));
    sort_by_account(&mut payload.entries);
    assert(payload@ == added_payload(
        before,
        added.id,
        added.domain,
        added.username,
        added.hotkey,
        added.secret,
        added.expires_on,
    ));
    Ok(())
}

/// The index of the first entry of the account `domain\username`.
pub open spec fn first_account_index(
    entries: Seq<EntryView>,
    domain: Seq<char>,
    username: Seq<char>,
) -> Option<int>
    decreases entries.len(),
{
    if entries.len() == 0 {
        None
    } else if is_account(entries[0], domain, username) {
        Some(0)
    } else {
        match first_account_index(entries.drop_first(), domain, username) {
            Some(i) => Some(i + 1),
            None => None,
        }
    }
}

pub open spec fn not_found_message(domain: Seq<char>, username: Seq<char>) -> Seq<char> {
    "entry '"@ + domain + "\\"@ + username + "' was not found"@
}

proof fn lemma_first_account_index(
    entries: Seq<EntryView>,
    domain: Seq<char>,
    username: Seq<char>,
    i: int,
)
    requires
        0 <= i <= entries.len(),
        forall|j: int| 0 <= j < i ==> !is_account(#[trigger] entries[j], domain, username),
    ensures
        i == entries.len() ==> first_account_index(entries, domain, username) is None,
        i < entries.len() && is_account(entries[i], domain, username) ==> first_account_index(
            entries,
            domain,
            username,
        ) == Some(i),
    decreases entries.len(),
{
    if entries.len() > 0 && i > 0 {
        let rest = entries.drop_first();
        assert forall|j: int| 0 <= j < i - 1 implies !is_account(
            #[trigger] rest[j],
            domain,
            username,
        ) by {
            assert(rest[j] == entries[j + 1]);
        }
        lemma_first_account_index(rest, domain, username, i - 1);
        if i < entries.len() {
            assert(rest[i - 1] == entries[i]);
        }
    }
}

/// Removing an entry takes out exactly that entry, keeps every other one,
/// and leaves entries in account order if they were.
pub proof fn lemma_remove_keeps_entries(entries: Seq<EntryView>, index: int)
    requires
        0 <= index < entries.len(),
    ensures
        entries.remove(index).to_multiset() == entries.to_multiset().remove(entries[index]),
        entries.remove(index).len() == entries.len() - 1,
        sorted_by_account(entries) ==> sorted_by_account(entries.remove(index)),
{
    broadcast use vstd::seq_lib::to_multiset_remove;

    let rest = entries.remove(index);
    if sorted_by_account(entries) {
        assert forall|i: int, j: int| 0 <= i < j < rest.len() implies entry_order(
            #[trigger] rest[i],
            #[trigger] rest[j],
        ) <= 0 by {
            let a = if i < index { i } else { i + 1 };
            let b = if j < index { j } else { j + 1 };
            assert(rest[i] == entries[a] && rest[j] == entries[b]);
        }
    }
}

/// Removes the first entry of the account `domain\username` (ASCII case
/// ignored) and returns it.
pub fn remove_entry(payload: &mut VaultPayload, domain: &str, username: &str) -> (result: Result<
    VaultEntry,
    String,
>)
    ensures
        match first_account_index(old(payload)@.entries, domain@, username@) {
            None => (result matches Err(error) && error@ == not_found_message(domain@, username@))
                && final(payload)@ == old(payload)@,
            Some(index) => (result matches Ok(removed) && removed@ == old(payload)@.entries[index])
                && final(payload)@ == (PayloadView {
                clipboard_clear_seconds: old(payload)@.clipboard_clear_seconds,
                entries: old(payload)@.entries.remove(index),
            }),
        },
{
    let mut index: usize = 0;
    while index < payload.entries.len()
        invariant
            *payload == *old(payload),
            index <= payload.entries@.len(),
            forall|j: int|
                0 <= j < index ==> !is_account(#[trigger] payload@.entries[j], domain@, username@),
        decreases payload.entries@.len() - index,
    {
        if eq_ignore_ascii_case(payload.entries[index].domain.as_str(), domain)
            && eq_ignore_ascii_case(payload.entries[index].username.as_str(), username) {
            proof {
                lemma_first_account_index(payload@.entries, domain@, username@, index as int);
            }
            let ghost before = payload@;
            assert(before.entries[index as int] == payload.entries@[index as int]@);
            let removed = payload.entries.remove(index);
            assert(entry_views(payload.entries@) =~= before.entries.remove(index as int));
            return Ok(removed);
        }
        index = index + 1;
    }
    proof {
        lemma_first_account_index(payload@.entries, domain@, username@, index as int);
    }
    let mut message = join3("entry '", domain, "\\");
    message.append(username);
    message.append("' was not found");
    Err(message)
}

/// The non-secret fields of every entry: domain, user name, hotkey and
/// expiration date, in payload order.
pub fn list_entries(payload: &VaultPayload) -> (listed: Vec<(&str, &str, &str, Option<&str>)>)
    ensures
        listed@.len() == payload@.entries.len(),
        forall|i: int|
            0 <= i < listed@.len() ==> {
                let entry = payload@.entries[i];
                &&& (#[trigger] listed@[i]).0@ == entry.domain
                &&& listed@[i].1@ == entry.username
                &&& listed@[i].2@ == entry.hotkey
                &&& match listed@[i].3 {
                    Some(date) => entry.expires_on == Some(date@),
                    None => entry.expires_on is None,
                }
            },
{
    let mut listed: Vec<(&str, &str, &str, Option<&str>)> = Vec::new();
    let mut index: usize = 0;
    while index < payload.entries.len()
        invariant
            index <= payload.entries@.len(),
            listed@.len() == index,
            forall|i: int|
                0 <= i < index ==> {
                    let entry = payload@.entries[i];
                    &&& (#[trigger] listed@[i]).0@ == entry.domain
                    &&& listed@[i].1@ == entry.username
                    &&& listed@[i].2@ == entry.hotkey
                    &&& match listed@[i].3 {
                        Some(date) => entry.expires_on == Some(date@),
                        None => entry.expires_on is None,
                    }
                },
        decreases payload.entries@.len() - index,
    {
        let entry = &payload.entries[index];
        let expires_on: Option<&str> = match &entry.expires_on {
            Some(date) => Some(date.as_str()),
            None => None,
        };
        listed.push(
            (entry.domain.as_str(), entry.username.as_str(), entry.hotkey.as_str(), expires_on),
        );
        index = index + 1;
    }
    listed
}

/// Accounts are matched ignoring ASCII case: when some entry's domain and
/// user name upper-case to the ones asked for, the account is found, and
/// what is found (the entry `remove_entry` removes) is the first entry at
/// or before it whose domain and user name do so.
pub proof fn lemma_account_found_ignoring_ascii_case(
    entries: Seq<EntryView>,
    domain: Seq<char>,
    username: Seq<char>,
    i: int,
)
    requires
        0 <= i < entries.len(),
        ascii_uppercase(entries[i].domain) == ascii_uppercase(domain),
        ascii_uppercase(entries[i].username) == ascii_uppercase(username),
    ensures
        first_account_index(entries, domain, username) matches Some(j) && 0 <= j <= i
            && ascii_uppercase(entries[j].domain) == ascii_uppercase(domain)
            && ascii_uppercase(entries[j].username) == ascii_uppercase(username),
    decreases i,
{
    lemma_eq_ascii_ci_is_uppercase_equality(entries[0].domain, domain);
    lemma_eq_ascii_ci_is_uppercase_equality(entries[0].username, username);
    if !is_account(entries[0], domain, username) {
        lemma_eq_ascii_ci_is_uppercase_equality(entries[i].domain, domain);
        lemma_eq_ascii_ci_is_uppercase_equality(entries[i].username, username);
        assert(i > 0);
        let rest = entries.drop_first();
        assert(rest[i - 1] == entries[i]);
        lemma_account_found_ignoring_ascii_case(rest, domain, username, i - 1);
        let j = first_account_index(rest, domain, username)->Some_0;
        assert(rest[j] == entries[j + 1]);
    }
}

} // verus!
