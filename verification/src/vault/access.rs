//! Loading and saving a vault through an interchangeable store.
use vstd::prelude::*;

use crate::vault::format::{PayloadView, VaultPayload};

verus! {

/// One call made on a vault store, with what the store answered; or, for
/// a store that keeps its whole record, what it was set to outside any load
/// or save (when it was made, or told to fail).
pub enum AccessEvent {
    Load { path: Seq<char>, outcome: Result<PayloadView, Seq<char>> },
    Save { path: Seq<char>, payload: PayloadView, outcome: Result<(), Seq<char>> },
    Reset { store: StoreView },
}

pub open spec fn load_outcome(result: Result<VaultPayload, String>) -> Result<
    PayloadView,
    Seq<char>,
> {
    match result {
        Ok(payload) => Ok(payload@),
        Err(error) => Err(error@),
    }
}

pub open spec fn save_outcome(result: Result<(), String>) -> Result<(), Seq<char>> {
    match result {
        Ok(()) => Ok(()),
        Err(error) => Err(error@),
    }
}

/// Load/save access to a vault. Entry operations depend on this interface
/// instead of on passwords, certificate files, smart cards or files.
///
/// Every call is recorded in `history`, with its path and its answer.
pub trait VaultAccess {
    /// The loads and saves made on this store so far, oldest first.
    spec fn history(&self) -> Seq<AccessEvent>;

    fn load(&mut self, path: &str) -> (result: Result<VaultPayload, String>)
        ensures
            final(self).history() == old(self).history().push(
                AccessEvent::Load { path: path@, outcome: load_outcome(result) },
            ),
    ;

    fn save(&mut self, path: &str, payload: &VaultPayload) -> (result: Result<(), String>)
        ensures
            final(self).history() == old(self).history().push(
                AccessEvent::Save { path: path@, payload: payload@, outcome: save_outcome(result) },
            ),
    ;
}

/// What an in-memory store holds.
pub struct StoreView {
    pub payload: PayloadView,
    pub load_count: usize,
    pub save_count: usize,
    pub fail_load: Option<Seq<char>>,
    pub fail_save: Option<Seq<char>>,
}

/// A store kept in memory, which can be told to fail its next load or save.
pub struct InMemoryVaultAccess {
    payload: VaultPayload,
    load_count: usize,
    save_count: usize,
    fail_load: Option<String>,
    fail_save: Option<String>,
    events: Ghost<Seq<AccessEvent>>,
}

pub open spec fn option_message(value: Option<String>) -> Option<Seq<char>> {
    match value {
        Some(text) => Some(text@),
        None => None,
    }
}

/// A counter one step further, wrapping at the top of `usize`.
pub open spec fn next_count(count: usize) -> usize {
    if count == usize::MAX {
        0
    } else {
        (count + 1) as usize
    }
}

/// A load from an in-memory store: counted; the planned failure, once, if
/// one is planned, and otherwise the stored payload.
pub open spec fn store_after_load(store: StoreView) -> (StoreView, Result<PayloadView, Seq<char>>) {
    let after = StoreView {
        load_count: next_count(store.load_count),
        fail_load: None,
        ..store
    };
    match store.fail_load {
        Some(message) => (after, Err(message)),
        None => (after, Ok(store.payload)),
    }
}

/// A save to an in-memory store: counted; the planned failure, once, if one
/// is planned, leaving the payload as it was, and otherwise the payload
/// replaced.
pub open spec fn store_after_save(store: StoreView, payload: PayloadView) -> (
    StoreView,
    Result<(), Seq<char>>,
) {
    let counted = StoreView {
        save_count: next_count(store.save_count),
        fail_save: None,
        ..store
    };
    match store.fail_save {
        Some(message) => (counted, Err(message)),
        None => (StoreView { payload, ..counted }, Ok(())),
    }
}

/// What a store gives back is what was last saved to it: after a save that
/// succeeds, the next load that is not told to fail returns that payload.
pub proof fn lemma_load_returns_saved(store: StoreView, payload: PayloadView)
    requires
        store.fail_save is None,
        store.fail_load is None,
    ensures
        store_after_save(store, payload).1 == Ok::<(), Seq<char>>(()),
        store_after_load(store_after_save(store, payload).0).1 == Ok::<PayloadView, Seq<char>>(
            payload,
        ),
{
}

/// A save that was told to fail leaves the stored payload as it was: the
/// next load gives back what was there before.
pub proof fn lemma_failed_save_keeps_payload(store: StoreView, payload: PayloadView)
    requires
        store.fail_save is Some,
        store.fail_load is None,
    ensures
        store_after_save(store, payload).1 is Err,
        store_after_load(store_after_save(store, payload).0).1 == Ok::<PayloadView, Seq<char>>(
            store.payload,
        ),
{
}

/// The in-memory store that a record of events leaves: each load and save
/// acts as `store_after_load` and `store_after_save` say, and a `Reset`
/// replaces the store. Before any event the store is empty.
pub open spec fn replayed(events: Seq<AccessEvent>) -> StoreView
    decreases events.len(),
{
    if events.len() == 0 {
        StoreView {
            payload: PayloadView { clipboard_clear_seconds: 0, entries: Seq::empty() },
            load_count: 0,
            save_count: 0,
            fail_load: None,
            fail_save: None,
        }
    } else {
        let before = replayed(events.drop_last());
        match events.last() {
            AccessEvent::Load { .. } => store_after_load(before).0,
            AccessEvent::Save { payload, .. } => store_after_save(before, payload).0,
            AccessEvent::Reset { store } => store,
        }
    }
}

/// An event as an in-memory store in state `store` acts it out: a load or
/// a save with the answer that store gives.
pub open spec fn acted_out(store: StoreView, event: AccessEvent) -> AccessEvent {
    match event {
        AccessEvent::Load { path, .. } => AccessEvent::Load {
            path,
            outcome: store_after_load(store).1,
        },
        AccessEvent::Save { path, payload, .. } => AccessEvent::Save {
            path,
            payload,
            outcome: store_after_save(store, payload).1,
        },
        AccessEvent::Reset { store: reset } => AccessEvent::Reset { store: reset },
    }
}

/// The record of events with each answer the one the store gave.
pub open spec fn answered(events: Seq<AccessEvent>) -> Seq<AccessEvent>
    decreases events.len(),
{
    if events.len() == 0 {
        Seq::empty()
    } else {
        answered(events.drop_last()).push(
            acted_out(replayed(events.drop_last()), events.last()),
        )
    }
}

/// Every answer in a record is the one the store, as the earlier events
/// left it, gives.
pub open spec fn faithful(events: Seq<AccessEvent>) -> bool {
    forall|i: int|
        0 <= i < events.len() ==> #[trigger] events[i] == acted_out(
            replayed(events.take(i)),
            events[i],
        )
}

proof fn lemma_answered(events: Seq<AccessEvent>)
    ensures
        answered(events).len() == events.len(),
        replayed(answered(events)) == replayed(events),
        faithful(answered(events)),
    decreases events.len(),
{
    if events.len() > 0 {
        let earlier = events.drop_last();
        lemma_answered(earlier);
        let last = acted_out(replayed(earlier), events.last());
        let whole = answered(earlier).push(last);
        assert(whole.drop_last() =~= answered(earlier));
        assert forall|i: int| 0 <= i < whole.len() implies #[trigger] whole[i] == acted_out(
            replayed(whole.take(i)),
            whole[i],
        ) by {
            if i < earlier.len() {
                assert(whole.take(i) =~= answered(earlier).take(i));
                assert(whole[i] == answered(earlier)[i]);
            } else {
                assert(whole.take(i) =~= answered(earlier));
            }
        }
    }
}

/// An in-memory store is what its record of events leaves, and the record
/// holds the answers the store gave: its counters, its payload and its
/// planned failures follow from its history alone, so they follow through
/// any code that only loads and saves.
pub proof fn lemma_store_follows_history(store: InMemoryVaultAccess)
    ensures
        store@ == replayed(store.history()),
        faithful(store.history()),
{
    lemma_answered(store.events@);
}

/// The store that a longer record leaves is the one its first part leaves,
/// with each later event acted on in turn.
pub proof fn lemma_replay_prefix(events: Seq<AccessEvent>, n: int)
    requires
        0 <= n < events.len(),
    ensures
        replayed(events.take(n + 1)) == match events[n] {
            AccessEvent::Load { .. } => store_after_load(replayed(events.take(n))).0,
            AccessEvent::Save { payload, .. } => store_after_save(
                replayed(events.take(n)),
                payload,
            ).0,
            AccessEvent::Reset { store } => store,
        },
{
    assert(events.take(n + 1).drop_last() =~= events.take(n));
}

/// Replaying one more event acts on the store the earlier ones left.
pub proof fn lemma_replay_step(events: Seq<AccessEvent>, event: AccessEvent)
    ensures
        replayed(events.push(event)) == match event {
            AccessEvent::Load { .. } => store_after_load(replayed(events)).0,
            AccessEvent::Save { payload, .. } => store_after_save(replayed(events), payload).0,
            AccessEvent::Reset { store } => store,
        },
        answered(events.push(event)) == answered(events).push(acted_out(replayed(events), event)),
{
    assert(events.push(event).drop_last() =~= events);
}

impl InMemoryVaultAccess {
    closed spec fn fields(&self) -> StoreView {
        StoreView {
            payload: self.payload@,
            load_count: self.load_count,
            save_count: self.save_count,
            fail_load: option_message(self.fail_load),
            fail_save: option_message(self.fail_save),
        }
    }

    #[verifier::type_invariant]
    closed spec fn follows_record(&self) -> bool {
        self.fields() == replayed(self.events@)
    }
}

impl View for InMemoryVaultAccess {
    type V = StoreView;

    closed spec fn view(&self) -> StoreView {
        replayed(self.events@)
    }
}

impl InMemoryVaultAccess {
    /// A store holding `payload`, with no call made and no failure planned.
    pub fn new(payload: VaultPayload) -> (access: Self)
        ensures
            access@ == (StoreView {
                payload: payload@,
                load_count: 0,
                save_count: 0,
                fail_load: None,
                fail_save: None,
            }),
            access.history() == seq![AccessEvent::Reset { store: access@ }],
    {
        let ghost start = StoreView {
            payload: payload@,
            load_count: 0,
            save_count: 0,
            fail_load: None,
            fail_save: None,
        };
        let ghost record = seq![AccessEvent::Reset { store: start }];
        let access = InMemoryVaultAccess {
            payload,
            load_count: 0,
            save_count: 0,
            fail_load: None,
            fail_save: None,
            events: Ghost(record),
        };
        proof {
            lemma_replay_step(Seq::empty(), AccessEvent::Reset { store: start });
            assert(seq![AccessEvent::Reset { store: start }] =~= Seq::<AccessEvent>::empty().push(
                AccessEvent::Reset { store: start },
            ));
        }
        access
    }

    pub fn payload(&self) -> (payload: &VaultPayload)
        ensures
            payload@ == self@.payload,
    {
        proof {
            use_type_invariant(self);
        }
        &self.payload
    }

    pub fn load_count(&self) -> (count: usize)
        ensures
            count == self@.load_count,
    {
        proof {
            use_type_invariant(self);
        }
        self.load_count
    }

    pub fn save_count(&self) -> (count: usize)
        ensures
            count == self@.save_count,
    {
        proof {
            use_type_invariant(self);
        }
        self.save_count
    }

    /// Makes the next load fail with `message`.
    pub fn fail_next_load(&mut self, message: &str)
        ensures
            final(self)@ == (StoreView { fail_load: Some(message@), ..old(self)@ }),
            final(self).history() == old(self).history().push(
                AccessEvent::Reset { store: final(self)@ },
            ),
    {
        proof {
            use_type_invariant(&*self);
        }
        let ghost planned = StoreView { fail_load: Some(message@), ..self@ };
        let ghost event = AccessEvent::Reset { store: planned };
        proof {
            lemma_replay_step(self.events@, event);
        }
        let next = InMemoryVaultAccess {
            payload: self.payload.clone(),
            load_count: self.load_count,
            save_count: self.save_count,
            fail_load: Some(String::from_str(message)),
            fail_save: copy_message(&self.fail_save),
            events: Ghost(self.events@.push(event)),
        };
        *self = next;
    }

    /// Makes the next save fail with `message`.
    pub fn fail_next_save(&mut self, message: &str)
        ensures
            final(self)@ == (StoreView { fail_save: Some(message@), ..old(self)@ }),
            final(self).history() == old(self).history().push(
                AccessEvent::Reset { store: final(self)@ },
            ),
    {
        proof {
            use_type_invariant(&*self);
        }
        let ghost planned = StoreView { fail_save: Some(message@), ..self@ };
        let ghost event = AccessEvent::Reset { store: planned };
        proof {
            lemma_replay_step(self.events@, event);
        }
        let next = InMemoryVaultAccess {
            payload: self.payload.clone(),
            load_count: self.load_count,
            save_count: self.save_count,
            fail_load: copy_message(&self.fail_load),
            fail_save: Some(String::from_str(message)),
            events: Ghost(self.events@.push(event)),
        };
        *self = next;
    }
}

fn copy_message(value: &Option<String>) -> (copy: Option<String>)
    ensures
        option_message(copy) == option_message(*value),
{
    match value {
        Some(message) => Some(message.clone()),
        None => None,
    }
}

impl Default for InMemoryVaultAccess {
    /// An empty vault with default settings.
    fn default() -> (access: Self)
        ensures
            access@.payload.entries.len() == 0,
            access@.load_count == 0,
            access@.save_count == 0,
            access@.fail_load is None,
            access@.fail_save is None,
            access.history().len() == 1,
    {
        InMemoryVaultAccess::new(VaultPayload::default())
    }
}

impl VaultAccess for InMemoryVaultAccess {
    closed spec fn history(&self) -> Seq<AccessEvent> {
        answered(self.events@)
    }

    /// Counts the load; fails once with the planned message, if one is
    /// planned, and otherwise hands out a copy of the stored payload.
    fn load(&mut self, path: &str) -> (result: Result<VaultPayload, String>)
        ensures
            (final(self)@, load_outcome(result)) == store_after_load(old(self)@),
    {
        proof {
            use_type_invariant(&*self);
        }
        let result = match &self.fail_load {
            Some(message) => Err(message.clone()),
            None => Ok(self.payload.clone()),
        };
        let ghost event = AccessEvent::Load { path: path@, outcome: load_outcome(result) };
        proof {
            lemma_replay_step(self.events@, event);
        }
        let next = InMemoryVaultAccess {
            payload: self.payload.clone(),
            load_count: self.load_count.wrapping_add(1),
            save_count: self.save_count,
            fail_load: None,
            fail_save: copy_message(&self.fail_save),
            events: Ghost(self.events@.push(event)),
        };
        *self = next;
        result
    }

    /// Counts the save; fails once with the planned message, if one is
    /// planned, leaving the stored payload as it was, and otherwise stores a
    /// copy of `payload`.
    fn save(&mut self, path: &str, payload: &VaultPayload) -> (result: Result<(), String>)
        ensures
            (final(self)@, save_outcome(result)) == store_after_save(old(self)@, payload@),
    {
        proof {
            use_type_invariant(&*self);
        }
        let (stored, result) = match &self.fail_save {
            Some(message) => (self.payload.clone(), Err(message.clone())),
            None => (payload.clone(), Ok(())),
        };
        let ghost event = AccessEvent::Save {
            path: path@,
            payload: payload@,
            outcome: save_outcome(result),
        };
        proof {
            lemma_replay_step(self.events@, event);
        }
        let next = InMemoryVaultAccess {
            payload: stored,
            load_count: self.load_count,
            save_count: self.save_count.wrapping_add(1),
            fail_load: copy_message(&self.fail_load),
            fail_save: None,
            events: Ghost(self.events@.push(event)),
        };
        *self = next;
        result
    }
}

} // verus!
