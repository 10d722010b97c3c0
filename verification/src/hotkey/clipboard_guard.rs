//! The secret the listener has put on the clipboard, and when it is taken
//! off again: after its timeout, after a paste, or when something else
//! replaces it. Each copy gets a generation number, so that a late timer
//! or monitor of an earlier copy never touches a later one.
use vstd::prelude::*;

use crate::text::str_eq;

verus! {

/// Whether clearing the clipboard for `expected` takes anything off it: only
/// a clipboard that still holds exactly that secret is cleared.
pub fn clipboard_holds(current_text: &str, expected: &str) -> (clear: bool)
    ensures
        clear == (current_text@ == expected@),
{
    str_eq(current_text, expected)
}

/// The secret on the clipboard, with the generation of its copy.
pub struct ActiveSecret {
    pub generation: u64,
    pub secret: String,
}

/// What the guard holds: the active secret, if any, and the generation the
/// next copy gets.
pub struct GuardView {
    pub active: Option<(u64, Seq<char>)>,
    pub next_generation: u64,
}

/// Bookkeeping of the copied secret.
pub struct ClipboardGuard {
    active: Option<ActiveSecret>,
    next_generation: u64,
}

pub open spec fn active_view(active: Option<ActiveSecret>) -> Option<(u64, Seq<char>)> {
    match active {
        Some(current) => Some((current.generation, current.secret@)),
        None => None,
    }
}

/// A generation counter one step further, wrapping at the top of `u64`.
pub open spec fn next_generation_after(generation: u64) -> u64 {
    if generation == u64::MAX {
        0
    } else {
        (generation + 1) as u64
    }
}

/// Whether a timer or paste of copy `generation` of `secret` still applies:
/// that copy is the active one.
pub open spec fn still_active(view: GuardView, generation: u64, secret: Seq<char>) -> bool {
    view.active == Some((generation, secret))
}

/// The guard once copy `generation` has ended, if it is the active one.
pub open spec fn without_generation(view: GuardView, generation: u64) -> GuardView {
    match view.active {
        Some((current, _)) => if current == generation {
            GuardView { active: None, ..view }
        } else {
            view
        },
        None => view,
    }
}

impl View for ClipboardGuard {
    type V = GuardView;

    closed spec fn view(&self) -> GuardView {
        GuardView { active: active_view(self.active), next_generation: self.next_generation }
    }
}

impl ClipboardGuard {
    /// No secret is active; the first copy gets generation 1.
    pub fn new() -> (guard: Self)
        ensures
            guard@ == (GuardView { active: None, next_generation: 1 }),
    {
        ClipboardGuard { active: None, next_generation: 1 }
    }

    /// A secret was copied: it becomes the active one, under a new
    /// generation, replacing any earlier copy. Returns the generation and
    /// whether an earlier copy was still active (its countdown is stopped).
    pub fn activate(&mut self, secret: String) -> (result: (u64, bool))
        ensures
            result.0 == old(self)@.next_generation,
            result.1 == old(self)@.active is Some,
            final(self)@ == (GuardView {
                active: Some((result.0, secret@)),
                next_generation: next_generation_after(old(self)@.next_generation),
            }),
    {
        let generation = self.next_generation;
        self.next_generation = self.next_generation.wrapping_add(1);
        let replaced = self.active.is_some();
        self.active = Some(ActiveSecret { generation, secret });
        (generation, replaced)
    }

    /// The active copy's generation and secret.
    pub fn snapshot(&self) -> (result: Option<(u64, String)>)
        ensures
            match (result, self@.active) {
                (Some((generation, secret)), Some((g, s))) => generation == g && secret@ == s,
                (None, None) => true,
                _ => false,
            },
    {
        match &self.active {
            Some(current) => Some((current.generation, current.secret.clone())),
            None => None,
        }
    }

    /// Whether the timer or paste of copy `generation` of `secret` may
    /// clear the clipboard.
    pub fn should_clear(&self, generation: u64, secret: &str) -> (clear: bool)
        ensures
            clear == still_active(self@, generation, secret@),
    {
        match &self.active {
            Some(current) => current.generation == generation && str_eq(
                current.secret.as_str(),
                secret,
            ),
            None => false,
        }
    }

    /// Copy `generation` has ended (cleared, pasted, replaced on the
    /// clipboard): it stops being active, unless a later copy already took
    /// its place. Returns whether it was the active one.
    pub fn deactivate_if_generation_matches(&mut self, generation: u64) -> (ended: bool)
        ensures
            ended == (old(self)@.active matches Some((current, _)) && current == generation),
            final(self)@ == without_generation(old(self)@, generation),
    {
        let matches = match &self.active {
            Some(current) => current.generation == generation,
            None => false,
        };
        if matches {
            self.active = None;
        }
        matches
    }

    /// What the clipboard held when copy `generation` was checked: a text
    /// other than its secret means something replaced it, and the copy ends
    /// unless a later copy already took its place. Returns whether it ended.
    pub fn on_clipboard_text(&mut self, generation: u64, current_text: &str) -> (ended: bool)
        ensures
            ended == (old(self)@.active matches Some((current, secret)) && current == generation
                && secret != current_text@),
            ended ==> final(self)@ == (GuardView { active: None, ..old(self)@ }),
            !ended ==> final(self)@ == old(self)@,
    {
        let replaced = match &self.active {
            Some(current) => current.generation == generation && !str_eq(
                current.secret.as_str(),
                current_text,
            ),
            None => false,
        };
        if replaced {
            self.active = None;
        }
        replaced
    }
}

/// Right after a copy, its own timer or paste finds it active.
pub proof fn lemma_fresh_copy_is_active(before: GuardView, secret: Seq<char>)
    ensures
        ({
            let after = GuardView {
                active: Some((before.next_generation, secret)),
                next_generation: next_generation_after(before.next_generation),
            };
            still_active(after, before.next_generation, secret)
        }),
{
}

/// A later copy supersedes an earlier one: once a second secret is copied,
/// the timer or paste of the first copy no longer clears anything, whatever
/// the two secrets are.
pub proof fn lemma_later_copy_supersedes(
    before: GuardView,
    first_secret: Seq<char>,
    second_secret: Seq<char>,
)
    ensures
        ({
            let first = before.next_generation;
            let after_first = GuardView {
                active: Some((first, first_secret)),
                next_generation: next_generation_after(first),
            };
            let after_second = GuardView {
                active: Some((after_first.next_generation, second_secret)),
                next_generation: next_generation_after(after_first.next_generation),
            };
            !still_active(after_second, first, first_secret) && still_active(
                after_second,
                after_first.next_generation,
                second_secret,
            )
        }),
{
}

/// The ending of an earlier copy leaves a later one active.
pub proof fn lemma_stale_end_keeps_later_copy(view: GuardView, stale: u64)
    requires
        view.active matches Some((current, _)) && current != stale,
    ensures
        without_generation(view, stale) == view,
{
}

/// Detects the paste keystrokes (Ctrl+V, Shift+Insert) on the edge where
/// the key goes down.
pub struct PasteDetector {
    previous_v_down: bool,
    previous_insert_down: bool,
}

impl PasteDetector {
    pub closed spec fn previous(&self) -> (bool, bool) {
        (self.previous_v_down, self.previous_insert_down)
    }

    pub fn new() -> (detector: Self)
        ensures
            detector.previous() == (false, false),
    {
        PasteDetector { previous_v_down: false, previous_insert_down: false }
    }

    /// Takes one sample of the keys and tells whether a paste was just
    /// pressed.
    pub fn sample(&mut self, control_down: bool, shift_down: bool, v_down: bool, insert_down: bool) -> (pasted: bool)
        ensures
            pasted == ((control_down && v_down && !old(self).previous().0) || (shift_down
                && insert_down && !old(self).previous().1)),
            final(self).previous() == (v_down, insert_down),
    {
        let pasted = (control_down && v_down && !self.previous_v_down) || (shift_down && insert_down
            && !self.previous_insert_down);
        self.previous_v_down = v_down;
        self.previous_insert_down = insert_down;
        pasted
    }
}

} // verus!
