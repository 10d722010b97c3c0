//! Entry operations carried out through a vault store: one load, then at
//! most one save.
use vstd::prelude::*;

use crate::entries::{
    add_entry, add_entry_problem, added_payload, first_account_index, list_entries, random_entry_id,
    not_found_message, remove_entry,
};
use crate::vault::access::{
    acted_out, lemma_replay_prefix, lemma_store_follows_history, next_count, replayed,
    save_outcome, AccessEvent,
    InMemoryVaultAccess, VaultAccess,
};
use crate::vault::format::{option_text, EntryView, PayloadView};

verus! {

pub open spec fn error_text(result: Result<(), String>) -> Result<(), Seq<char>> {
    save_outcome(result)
}

/// What adding an entry through a store does, call by call: `start` is the
/// store's history before, `after` its history afterwards.
///
/// It loads from `path` once. A failed load, or an entry that the loaded
/// payload refuses, ends it with that error and no save. Otherwise it saves
/// the payload with the new entry to `path` once and answers what the save
/// answered.
pub open spec fn added_through(
    start: Seq<AccessEvent>,
    after: Seq<AccessEvent>,
    path: Seq<char>,
    domain: Seq<char>,
    username: Seq<char>,
    hotkey: Seq<char>,
    secret: Seq<char>,
    expires_on: Option<Seq<char>>,
    result: Result<(), Seq<char>>,
) -> bool {
    &&& after.len() > start.len()
    &&& after.subrange(0, start.len() as int) == start
    &&& match after[start.len() as int] {
        AccessEvent::Load { path: loaded_from, outcome } => {
            &&& loaded_from == path
            &&& match outcome {
                Err(error) => after.len() == start.len() + 1 && result == Err::<(), Seq<char>>(
                    error,
                ),
                Ok(loaded) => match add_entry_problem(
                    loaded,
                    domain,
                    username,
                    hotkey,
                    secret,
                    expires_on,
                ) {
                    Some(message) => after.len() == start.len() + 1 && result == Err::<
                        (),
                        Seq<char>,
                    >(message),
                    None => after.len() == start.len() + 2 && exists|id: Seq<u8>|
                        random_entry_id(id) && after[start.len() as int + 1] == (AccessEvent::Save {
                            path,
                            payload: added_payload(
                                loaded,
                                id,
                                domain,
                                username,
                                hotkey,
                                secret,
                                expires_on,
                            ),
                            outcome: result,
                        }),
                },
            }
        },
        AccessEvent::Save { .. } => false,
        AccessEvent::Reset { .. } => false,
    }
}

/// Adds an entry through a store: loads the vault, adds the entry with
/// `add_entry`, and saves the result.
pub fn add_entry_with_access<A: VaultAccess>(
    path: &str,
    access: &mut A,
    domain: String,
    username: String,
    hotkey: String,
    secret: String,
    expires_on: Option<String>,
) -> (result: Result<(), String>)
    ensures
        added_through(
            old(access).history(),
            final(access).history(),
            path@,
            domain@,
            username@,
            hotkey@,
            secret@,
            option_text(expires_on),
            error_text(result),
        ),
{
    let ghost start = access.history();
    let ghost entry_fields = (domain@, username@, hotkey@, secret@, option_text(expires_on));
    let loaded = access.load(path);
    let ghost after_load = access.history();
    assert(after_load.subrange(0, start.len() as int) =~= start);
    let mut payload = match loaded {
        Ok(payload) => payload,
        Err(error) => {
            return Err(error);
        },
    };
    let ghost loaded_view = payload@;
    match add_entry(&mut payload, domain, username, hotkey, secret, expires_on) {
        Ok(()) => {},
        Err(error) => {
            return Err(error);
        },
    }
    let saved = access.save(path, &payload);
    proof {
        let after = access.history();
        assert(after.subrange(0, start.len() as int) =~= start);
        assert(after[start.len() as int] == after_load[start.len() as int]);
        let id = choose|id: Seq<u8>|
            random_entry_id(id) && payload@ == added_payload(
                loaded_view,
                id,
                entry_fields.0,
                entry_fields.1,
                entry_fields.2,
                entry_fields.3,
                entry_fields.4,
            );
        assert(after[start.len() as int + 1] == (AccessEvent::Save {
            path: path@,
            payload: added_payload(
                loaded_view,
                id,
                entry_fields.0,
                entry_fields.1,
                entry_fields.2,
                entry_fields.3,
                entry_fields.4,
            ),
            outcome: error_text(saved),
        }));
    }
    saved
}

/// The listed metadata of one entry: domain, user name, hotkey and
/// expiration date.
pub open spec fn listed_as(listed: (String, String, String, Option<String>), entry: EntryView) -> bool {
    &&& listed.0@ == entry.domain
    &&& listed.1@ == entry.username
    &&& listed.2@ == entry.hotkey
    &&& option_text(listed.3) == entry.expires_on
}

/// Lists the non-secret metadata of every entry through a store, after one
/// load and no save. Secrets are never returned.
pub fn list_entries_with_access<A: VaultAccess>(path: &str, access: &mut A) -> (result: Result<
    Vec<(String, String, String, Option<String>)>,
    String,
>)
    ensures
        exists|outcome: Result<PayloadView, Seq<char>>|
            {
                &&& final(access).history() == old(access).history().push(
                    AccessEvent::Load { path: path@, outcome },
                )
                &&& match outcome {
                    Err(error) => result matches Err(e) && e@ == error,
                    Ok(loaded) => result matches Ok(listed) && listed@.len()
                        == loaded.entries.len() && forall|i: int|
                        0 <= i < listed@.len() ==> listed_as(
                            #[trigger] listed@[i],
                            loaded.entries[i],
                        ),
                }
            },
{
    let loaded = access.load(path);
    let payload = match loaded {
        Ok(payload) => payload,
        Err(error) => {
            return Err(error);
        },
    };
    let borrowed = list_entries(&payload);
    let mut listed: Vec<(String, String, String, Option<String>)> = Vec::new();
    let mut index: usize = 0;
    while index < borrowed.len()
        invariant
            index <= borrowed@.len(),
            borrowed@.len() == payload@.entries.len(),
            listed@.len() == index,
            forall|i: int|
                0 <= i < borrowed@.len() ==> {
                    let entry = payload@.entries[i];
                    &&& (#[trigger] borrowed@[i]).0@ == entry.domain
                    &&& borrowed@[i].1@ == entry.username
                    &&& borrowed@[i].2@ == entry.hotkey
                    &&& match borrowed@[i].3 {
                        Some(date) => entry.expires_on == Some(date@),
                        None => entry.expires_on is None,
                    }
                },
            forall|i: int| 0 <= i < index ==> listed_as(#[trigger] listed@[i], payload@.entries[i]),
        decreases borrowed@.len() - index,
    {
        let (domain, username, hotkey, expires_on) = borrowed[index];
        let expires_on: Option<String> = match expires_on {
            Some(date) => Some(String::from_str(date)),
            None => None,
        };
        listed.push(
            (
                String::from_str(domain),
                String::from_str(username),
                String::from_str(hotkey),
                expires_on,
            ),
        );
        index = index + 1;
    }
    Ok(listed)
}

/// What removing an entry through a store does, call by call.
///
/// It loads from `path` once. A failed load, or an account the payload does
/// not hold, ends it with that error and no save. Otherwise it saves the
/// payload without the account's first entry to `path` once; if that save
/// succeeds it answers the removed entry's domain, user name and hotkey.
pub open spec fn removed_through(
    start: Seq<AccessEvent>,
    after: Seq<AccessEvent>,
    path: Seq<char>,
    domain: Seq<char>,
    username: Seq<char>,
    result: Result<(Seq<char>, Seq<char>, Seq<char>), Seq<char>>,
) -> bool {
    &&& after.len() > start.len()
    &&& after.subrange(0, start.len() as int) == start
    &&& match after[start.len() as int] {
        AccessEvent::Load { path: loaded_from, outcome } => {
            &&& loaded_from == path
            &&& match outcome {
                Err(error) => after.len() == start.len() + 1 && result == Err::<
                    (Seq<char>, Seq<char>, Seq<char>),
                    Seq<char>,
                >(error),
                Ok(loaded) => match first_account_index(loaded.entries, domain, username) {
                    None => after.len() == start.len() + 1 && result == Err::<
                        (Seq<char>, Seq<char>, Seq<char>),
                        Seq<char>,
                    >(not_found_message(domain, username)),
                    Some(index) => {
                        let removed = loaded.entries[index];
                        &&& after.len() == start.len() + 2
                        &&& after[start.len() as int + 1] matches AccessEvent::Save {
                            path: saved_to,
                            payload,
                            outcome,
                        }
                        &&& saved_to == path
                        &&& payload == (PayloadView {
                            clipboard_clear_seconds: loaded.clipboard_clear_seconds,
                            entries: loaded.entries.remove(index),
                        })
                        &&& result == match outcome {
                            Ok(()) => Ok((removed.domain, removed.username, removed.hotkey)),
                            Err(error) => Err(error),
                        }
                    },
                },
            }
        },
        AccessEvent::Save { .. } => false,
        AccessEvent::Reset { .. } => false,
    }
}

pub open spec fn removal_text(result: Result<(String, String, String), String>) -> Result<
    (Seq<char>, Seq<char>, Seq<char>),
    Seq<char>,
> {
    match result {
        Ok((domain, username, hotkey)) => Ok((domain@, username@, hotkey@)),
        Err(error) => Err(error@),
    }
}

/// Removes an entry through a store: loads the vault, removes the first
/// entry of the account `domain\username` (ASCII case ignored), and saves
/// the result.
pub fn remove_entry_with_access<A: VaultAccess>(
    path: &str,
    access: &mut A,
    domain: &str,
    username: &str,
) -> (result: Result<(String, String, String), String>)
    ensures
        removed_through(
            old(access).history(),
            final(access).history(),
            path@,
            domain@,
            username@,
            removal_text(result),
        ),
{
    let ghost start = access.history();
    let loaded = access.load(path);
    let ghost after_load = access.history();
    assert(after_load.subrange(0, start.len() as int) =~= start);
    let mut payload = match loaded {
        Ok(payload) => payload,
        Err(error) => {
            return Err(error);
        },
    };
    let removed = match remove_entry(&mut payload, domain, username) {
        Ok(removed) => removed,
        Err(error) => {
            return Err(error);
        },
    };
    let answer = (removed.domain.clone(), removed.username.clone(), removed.hotkey.clone());
    let saved = access.save(path, &payload);
    proof {
        let after = access.history();
        assert(after.subrange(0, start.len() as int) =~= start);
        assert(after[start.len() as int] == after_load[start.len() as int]);
    }
    match saved {
        Ok(()) => Ok(answer),
        Err(error) => Err(error),
    }
}

/// Adding an entry through an in-memory store with no failure planned
/// loads once; an entry the payload refuses is answered with the refusal
/// and nothing is saved; otherwise the store saves once and then holds the
/// payload with the entry added.
pub proof fn lemma_add_through_memory(
    before: InMemoryVaultAccess,
    after: InMemoryVaultAccess,
    path: Seq<char>,
    domain: Seq<char>,
    username: Seq<char>,
    hotkey: Seq<char>,
    secret: Seq<char>,
    expires_on: Option<Seq<char>>,
    result: Result<(), Seq<char>>,
)
    requires
        added_through(
            before.history(),
            after.history(),
            path,
            domain,
            username,
            hotkey,
            secret,
            expires_on,
            result,
        ),
        before@.fail_load is None,
        before@.fail_save is None,
    ensures
        after@.load_count == next_count(before@.load_count),
        match add_entry_problem(before@.payload, domain, username, hotkey, secret, expires_on) {
            Some(problem) => {
                &&& result == Err::<(), Seq<char>>(problem)
                &&& after@.save_count == before@.save_count
                &&& after@.payload == before@.payload
            },
            None => {
                &&& result == Ok::<(), Seq<char>>(())
                &&& after@.save_count == next_count(before@.save_count)
                &&& exists|id: Seq<u8>|
                    random_entry_id(id) && after@.payload == added_payload(
                        before@.payload,
                        id,
                        domain,
                        username,
                        hotkey,
                        secret,
                        expires_on,
                    )
            },
        },
{
    let start = before.history();
    let events = after.history();
    let n = start.len() as int;
    lemma_store_follows_history(before);
    lemma_store_follows_history(after);
    assert(events.take(n) =~= start);
    assert(events[n] == acted_out(replayed(events.take(n)), events[n]));
    lemma_replay_prefix(events, n);
    if events.len() == n + 1 {
        assert(events.take(n + 1) =~= events);
    } else {
        assert(events[n + 1] == acted_out(
            replayed(events.take(n + 1)),
            events[n + 1],
        ));
        lemma_replay_prefix(events, n + 1);
        assert(events.take(n + 2) =~= events);
    }
}

/// Listing through an in-memory store with no failure planned loads once
/// and saves nothing; the store keeps its payload.
pub proof fn lemma_list_through_memory(
    before: InMemoryVaultAccess,
    after: InMemoryVaultAccess,
    path: Seq<char>,
    outcome: Result<PayloadView, Seq<char>>,
)
    requires
        after.history() == before.history().push(AccessEvent::Load { path, outcome }),
        before@.fail_load is None,
    ensures
        outcome == Ok::<PayloadView, Seq<char>>(before@.payload),
        after@.load_count == next_count(before@.load_count),
        after@.save_count == before@.save_count,
        after@.payload == before@.payload,
{
    let events = after.history();
    let n = before.history().len() as int;
    lemma_store_follows_history(before);
    lemma_store_follows_history(after);
    assert(events.take(n) =~= before.history());
    assert(events[n] == acted_out(replayed(events.take(n)), events[n]));
    lemma_replay_prefix(events, n);
    assert(events.take(n + 1) =~= events);
}

/// Removing an entry through an in-memory store with no failure planned
/// loads once; an account the payload does not hold is answered with the
/// not-found error and nothing is saved; otherwise the store saves once,
/// then holds the payload without the account's first entry, and the
/// removed entry's domain, user name and hotkey are answered.
pub proof fn lemma_remove_through_memory(
    before: InMemoryVaultAccess,
    after: InMemoryVaultAccess,
    path: Seq<char>,
    domain: Seq<char>,
    username: Seq<char>,
    result: Result<(Seq<char>, Seq<char>, Seq<char>), Seq<char>>,
)
    requires
        removed_through(before.history(), after.history(), path, domain, username, result),
        before@.fail_load is None,
        before@.fail_save is None,
    ensures
        after@.load_count == next_count(before@.load_count),
        match first_account_index(before@.payload.entries, domain, username) {
            None => {
                &&& result == Err::<(Seq<char>, Seq<char>, Seq<char>), Seq<char>>(
                    not_found_message(domain, username),
                )
                &&& after@.save_count == before@.save_count
                &&& after@.payload == before@.payload
            },
            Some(index) => {
                let removed = before@.payload.entries[index];
                &&& result == Ok::<(Seq<char>, Seq<char>, Seq<char>), Seq<char>>(
                    (removed.domain, removed.username, removed.hotkey),
                )
                &&& after@.save_count == next_count(before@.save_count)
                &&& after@.payload == (PayloadView {
                    clipboard_clear_seconds: before@.payload.clipboard_clear_seconds,
                    entries: before@.payload.entries.remove(index),
                })
            },
        },
{
    let start = before.history();
    let events = after.history();
    let n = start.len() as int;
    lemma_store_follows_history(before);
    lemma_store_follows_history(after);
    assert(events.take(n) =~= start);
    assert(events[n] == acted_out(replayed(events.take(n)), events[n]));
    lemma_replay_prefix(events, n);
    if events.len() == n + 1 {
        assert(events.take(n + 1) =~= events);
    } else {
        assert(events[n + 1] == acted_out(
            replayed(events.take(n + 1)),
            events[n + 1],
        ));
        lemma_replay_prefix(events, n + 1);
        assert(events.take(n + 2) =~= events);
    }
}

} // verus!
