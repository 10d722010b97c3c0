//! The decisions of the hotkey listener: which entries it serves, what each
//! hotkey press does, and the texts it shows.
use vstd::prelude::*;

use crate::expiration::{
    expiration_status, option_str, spec_expiration_status, spec_warning_message, warning_message,
    DayNumber, ExpirationStatus, DEFAULT_EXPIRATION_WARNING_DAYS,
};
use crate::hotkey::windows::{parse_hotkey, parsed_hotkey, ParsedHotkey};
use crate::hotkey::RuntimeEntry;
use crate::text::join3;
use crate::vault::format::{option_text, EntryView, VaultEntry};

verus! {

/// A press of the same hotkey within this many milliseconds of the last one
/// is ignored.
pub const DEBOUNCE_MS: u64 = 500;

/// A listener serves at least one entry: with none loaded it refuses to
/// start.
pub fn check_entries_loaded(entries: &Vec<RuntimeEntry>) -> (result: Result<(), String>)
    ensures
        entries@.len() == 0 ==> (result matches Err(message) && message@
            == "no PasswordOut entries were loaded"@),
        entries@.len() > 0 ==> result is Ok,
{
    if entries.len() == 0 {
        return Err(String::from_str("no PasswordOut entries were loaded"));
    }
    Ok(())
}

/// What a text becomes under `{:<width}`: padded with spaces on the right to
/// `width` characters.
pub open spec fn padded(text: Seq<char>, width: nat) -> Seq<char> {
    if text.len() >= width {
        text
    } else {
        text + Seq::new((width - text.len()) as nat, |i: int| ' ')
    }
}

/// `text` padded with spaces on the right to `width` characters.
pub fn pad_right(text: &str, width: usize) -> (result: String)
    ensures
        result@ == padded(text@, width as nat),
{
    let length = text.unicode_len();
    let mut result = String::from_str(text);
    if length >= width {
        return result;
    }
    let mut count: usize = length;
    while count < width
        invariant
            length == text@.len(),
            length <= count <= width,
            result@ == text@ + Seq::new((count - length) as nat, |i: int| ' '),
        decreases width - count,
    {
        result.append(" ");
        proof {
            reveal_strlit(" ");
            assert(result@ =~= text@ + Seq::new((count + 1 - length) as nat, |i: int| ' '));
        }
        count = count + 1;
    }
    result
}

/// The account name a listener shows for an entry: `DOMAIN\username`.
pub open spec fn account_name(entry: EntryView) -> Seq<char> {
    entry.domain + "\\"@ + entry.username
}

/// The listener's form of a vault entry, given the entry's expiration
/// status, or why the entry's date cannot be classified.
pub open spec fn runtime_entry_matches(
    runtime: RuntimeEntry,
    entry: EntryView,
    today: DayNumber,
) -> bool {
    &&& runtime.account@ == account_name(entry)
    &&& runtime.hotkey@ == entry.hotkey
    &&& runtime.secret@ == entry.secret
    &&& option_text(runtime.expires_on) == entry.expires_on
    &&& spec_expiration_status(entry.expires_on, today, DEFAULT_EXPIRATION_WARNING_DAYS) matches Ok(
        status,
    ) && option_text(runtime.expiration_warning) == spec_warning_message(status)
}

/// The first entry whose expiration date cannot be classified.
pub open spec fn unclassifiable(entries: Seq<EntryView>, today: DayNumber) -> Option<int> {
    if exists|i: int|
        0 <= i < entries.len() && #[trigger] spec_expiration_status(
            entries[i].expires_on,
            today,
            DEFAULT_EXPIRATION_WARNING_DAYS,
        ) is Err {
        Some(
            choose|i: int|
                0 <= i < entries.len() && spec_expiration_status(
                    entries[i].expires_on,
                    today,
                    DEFAULT_EXPIRATION_WARNING_DAYS,
                ) is Err && forall|j: int|
                    0 <= j < i ==> #[trigger] spec_expiration_status(
                        entries[j].expires_on,
                        today,
                        DEFAULT_EXPIRATION_WARNING_DAYS,
                    ) is Ok,
        )
    } else {
        None
    }
}

/// The entries a listener serves: each vault entry with its account name and
/// the expiration warning due on `today`. An entry whose date cannot be
/// classified stops it with that error.
pub fn runtime_entries(entries: &Vec<VaultEntry>, today: DayNumber) -> (result: Result<
    Vec<RuntimeEntry>,
    String,
>)
    ensures
        match result {
            Ok(runtime) => {
                &&& runtime@.len() == entries@.len()
                &&& forall|i: int|
                    0 <= i < entries@.len() ==> runtime_entry_matches(
                        #[trigger] runtime@[i],
                        entries@[i]@,
                        today,
                    )
            },
            Err(message) => exists|i: int|
                0 <= i < entries@.len() && (forall|j: int|
                    0 <= j < i ==> #[trigger] spec_expiration_status(
                        entries@[j]@.expires_on,
                        today,
                        DEFAULT_EXPIRATION_WARNING_DAYS,
                    ) is Ok) && spec_expiration_status(
                    entries@[i]@.expires_on,
                    today,
                    DEFAULT_EXPIRATION_WARNING_DAYS,
                ) == Err::<ExpirationStatus, Seq<char>>(message@),
        },
{
    let mut runtime: Vec<RuntimeEntry> = Vec::new();
    let mut index: usize = 0;
    while index < entries.len()
        invariant
            index <= entries@.len(),
            runtime@.len() == index,
            forall|i: int|
                0 <= i < index ==> runtime_entry_matches(
                    #[trigger] runtime@[i],
                    entries@[i]@,
                    today,
                ),
            forall|j: int|
                0 <= j < index ==> #[trigger] spec_expiration_status(
                    entries@[j]@.expires_on,
                    today,
                    DEFAULT_EXPIRATION_WARNING_DAYS,
                ) is Ok,
        decreases entries@.len() - index,
    {
        let entry = &entries[index];
        let expires_on: Option<&str> = match &entry.expires_on {
            Some(date) => Some(date.as_str()),
            None => None,
        };
        assert(option_str(expires_on) == entry@.expires_on);
        let status = match expiration_status(expires_on, today, DEFAULT_EXPIRATION_WARNING_DAYS) {
            Ok(status) => status,
            Err(error) => {
                return Err(error);
            },
        };
        let warning = warning_message(status);
        let mut account = join3(entry.domain.as_str(), "\\", entry.username.as_str());
        let expires_copy: Option<String> = match &entry.expires_on {
            Some(date) => Some(date.clone()),
            None => None,
        };
        runtime.push(
            RuntimeEntry {
                account,
                hotkey: entry.hotkey.clone(),
                secret: entry.secret.clone(),
                expires_on: expires_copy,
                expiration_warning: warning,
            },
        );
        index = index + 1;
    }
    Ok(runtime)
}

/// The first line of the entry list.
pub const ENTRY_LIST_HEADING: &'static str = "PasswordOut entries:";

/// One line of the Windows entry list: the account padded to 20 characters,
/// then the hotkey.
pub open spec fn windows_list_line(entry: RuntimeEntry) -> Seq<char> {
    padded(entry.account@, 20) + " "@ + entry.hotkey@
}

/// One line of the macOS entry list: the account padded to 28 characters,
/// then the hotkey (padded to 18 when a date follows) and the expiration
/// date with its warning.
pub open spec fn macos_list_line(entry: RuntimeEntry) -> Seq<char> {
    match (entry.expires_on, entry.expiration_warning) {
        (Some(expires_on), Some(warning)) => padded(entry.account@, 28) + " "@ + padded(
            entry.hotkey@,
            18,
        ) + " expires "@ + expires_on@ + " \u{2014} "@ + warning@,
        (Some(expires_on), None) => padded(entry.account@, 28) + " "@ + padded(entry.hotkey@, 18)
            + " expires "@ + expires_on@,
        (None, _) => padded(entry.account@, 28) + " "@ + entry.hotkey@,
    }
}

/// The heading followed by one line per entry, each line after a line
/// feed.
pub open spec fn list_text(lines: Seq<Seq<char>>) -> Seq<char>
    decreases lines.len(),
{
    if lines.len() == 0 {
        ENTRY_LIST_HEADING@
    } else {
        list_text(lines.drop_last()) + "\n"@ + lines.last()
    }
}

pub open spec fn windows_lines(entries: Seq<RuntimeEntry>) -> Seq<Seq<char>> {
    entries.map_values(|entry: RuntimeEntry| windows_list_line(entry))
}

pub open spec fn macos_lines(entries: Seq<RuntimeEntry>) -> Seq<Seq<char>> {
    entries.map_values(|entry: RuntimeEntry| macos_list_line(entry))
}

fn windows_line(entry: &RuntimeEntry) -> (line: String)
    ensures
        line@ == windows_list_line(*entry),
{
    let mut line = pad_right(entry.account.as_str(), 20);
    line.append(" ");
    line.append(entry.hotkey.as_str());
    line
}

fn macos_line(entry: &RuntimeEntry) -> (line: String)
    ensures
        line@ == macos_list_line(*entry),
{
    let mut line = pad_right(entry.account.as_str(), 28);
    line.append(" ");
    match (&entry.expires_on, &entry.expiration_warning) {
        (Some(expires_on), Some(warning)) => {
            line.append(pad_right(entry.hotkey.as_str(), 18).as_str());
            line.append(" expires ");
            line.append(expires_on.as_str());
            line.append(" \u{2014} ");
            line.append(warning.as_str());
        },
        (Some(expires_on), None) => {
            line.append(pad_right(entry.hotkey.as_str(), 18).as_str());
            line.append(" expires ");
            line.append(expires_on.as_str());
        },
        (None, _) => {
            line.append(entry.hotkey.as_str());
        },
    }
    line
}

/// The entry list the Windows listener shows.
pub fn build_entry_list_overlay(entries: &Vec<RuntimeEntry>) -> (message: String)
    ensures
        message@ == list_text(windows_lines(entries@)),
{
    let mut message = String::from_str(ENTRY_LIST_HEADING);
    let mut index: usize = 0;
    assert(windows_lines(entries@).take(0) =~= Seq::<Seq<char>>::empty());
    while index < entries.len()
        invariant
            index <= entries@.len(),
            message@ == list_text(windows_lines(entries@).take(index as int)),
        decreases entries@.len() - index,
    {
        let line = windows_line(&entries[index]);
        message.append("\n");
        message.append(line.as_str());
        proof {
            let prefix = windows_lines(entries@).take(index + 1);
            assert(prefix.drop_last() =~= windows_lines(entries@).take(index as int));
        }
        index = index + 1;
    }
    assert(windows_lines(entries@).take(entries@.len() as int) =~= windows_lines(entries@));
    message
}

/// The entry list the macOS listener shows, with expiration dates.
pub fn build_macos_entry_list_overlay(entries: &Vec<RuntimeEntry>) -> (message: String)
    ensures
        message@ == list_text(macos_lines(entries@)),
{
    let mut message = String::from_str(ENTRY_LIST_HEADING);
    let mut index: usize = 0;
    assert(macos_lines(entries@).take(0) =~= Seq::<Seq<char>>::empty());
    while index < entries.len()
        invariant
            index <= entries@.len(),
            message@ == list_text(macos_lines(entries@).take(index as int)),
        decreases entries@.len() - index,
    {
        let line = macos_line(&entries[index]);
        message.append("\n");
        message.append(line.as_str());
        proof {
            let prefix = macos_lines(entries@).take(index + 1);
            assert(prefix.drop_last() =~= macos_lines(entries@).take(index as int));
        }
        index = index + 1;
    }
    assert(macos_lines(entries@).take(entries@.len() as int) =~= macos_lines(entries@));
    message
}

/// The confirmation the Windows listener shows after copying a secret.
pub fn copied_message(entry: &RuntimeEntry) -> (message: String)
    ensures
        message@ == "Password for "@ + entry.account@ + " copied to clipboard"@,
{
    join3("Password for ", entry.account.as_str(), " copied to clipboard")
}

/// The confirmation the macOS listener shows after copying a secret, with
/// the expiration date and its warning.
pub open spec fn macos_copied_text(entry: RuntimeEntry) -> Seq<char> {
    let copied = "Password for "@ + entry.account@ + " copied to clipboard"@;
    match (entry.expires_on, entry.expiration_warning) {
        (Some(expires_on), Some(warning)) => copied + "\nExpires: "@ + expires_on@ + "\n"@
            + warning@,
        (Some(expires_on), None) => copied + "\nExpires: "@ + expires_on@,
        (None, _) => copied,
    }
}

pub fn macos_copied_message(entry: &RuntimeEntry) -> (message: String)
    ensures
        message@ == macos_copied_text(*entry),
{
    let mut message = copied_message(entry);
    match (&entry.expires_on, &entry.expiration_warning) {
        (Some(expires_on), Some(warning)) => {
            message.append("\nExpires: ");
            message.append(expires_on.as_str());
            message.append("\n");
            message.append(warning.as_str());
        },
        (Some(expires_on), None) => {
            message.append("\nExpires: ");
            message.append(expires_on.as_str());
        },
        (None, _) => {},
    }
    message
}

/// The registration of the entry at `index`: its hotkey id, one more than
/// its position, and its chord in `RegisterHotKey` form.
pub fn entry_registration(index: usize, entry: &RuntimeEntry) -> (result: Result<
    (i32, ParsedHotkey),
    String,
>)
    ensures
        index + 1 > i32::MAX ==> (result matches Err(message) && message@
            == "too many hotkey entries"@),
        index + 1 <= i32::MAX ==> match parsed_hotkey(entry.hotkey@) {
            Ok(parsed) => result == Ok::<(i32, ParsedHotkey), String>(((index + 1) as i32, parsed)),
            Err(problem) => result matches Err(message) && message@ == "failed parsing hotkey for '"@
                + entry.account@ + "': "@ + problem,
        },
{
    if index >= 0x7FFF_FFFF {
        return Err(String::from_str("too many hotkey entries"));
    }
    let id: i32 = (index + 1) as i32;
    match parse_hotkey(entry.hotkey.as_str()) {
        Ok(parsed) => Ok((id, parsed)),
        Err(error) => {
            let mut message = join3("failed parsing hotkey for '", entry.account.as_str(), "': ");
            message.append(error.as_str());
            Err(message)
        },
    }
}

/// What a hotkey press asks for.
#[derive(Debug, Clone, Copy, PartialEq, Eq, Structural)]
pub enum HotkeyAction {
    /// The press repeats the same hotkey too soon, or is not a press.
    Ignore,
    /// Show the entry list.
    ShowEntryList,
    /// Hide the entry list.
    HideEntryList,
    /// Clear the copied secret now.
    ClearClipboard,
    /// Copy the secret of the entry at this position.
    CopyEntry(usize),
    /// No entry has this id.
    Unmatched(i32),
}

/// The listener's memory of when each hotkey last fired.
pub struct HotkeyDispatcher {
    entry_count: usize,
    list_id: i32,
    last_fire: Vec<(i32, u64)>,
}

/// What the dispatcher holds: the number of entries, the list hotkey's id,
/// and the time each id last fired, in milliseconds.
pub struct DispatcherView {
    pub entry_count: nat,
    pub list_id: i32,
    pub last_fire: Map<i32, u64>,
}

pub open spec fn fire_map(fired: Seq<(i32, u64)>) -> Map<i32, u64>
    decreases fired.len(),
{
    if fired.len() == 0 {
        Map::empty()
    } else {
        fire_map(fired.drop_last()).insert(fired.last().0, fired.last().1)
    }
}

impl View for HotkeyDispatcher {
    type V = DispatcherView;

    closed spec fn view(&self) -> DispatcherView {
        DispatcherView {
            entry_count: self.entry_count as nat,
            list_id: self.list_id,
            last_fire: fire_map(self.last_fire@),
        }
    }
}

/// Whether a press at `now` repeats the last firing of `id` too soon.
pub open spec fn too_soon(last_fire: Map<i32, u64>, id: i32, now: u64) -> bool {
    last_fire.contains_key(id) && (if now >= last_fire[id] {
        now - last_fire[id]
    } else {
        0
    }) < DEBOUNCE_MS
}

/// What a press of `id` that is not too soon asks for.
pub open spec fn action_for(view: DispatcherView, id: i32) -> HotkeyAction {
    if id == view.list_id {
        HotkeyAction::ShowEntryList
    } else if 1 <= id <= view.entry_count {
        HotkeyAction::CopyEntry((id - 1) as usize)
    } else {
        HotkeyAction::Unmatched(id)
    }
}

impl HotkeyDispatcher {
    /// A dispatcher for `entry_count` entries, registered as ids 1 to
    /// `entry_count`, and the list hotkey `list_id`.
    pub fn new(entry_count: usize, list_id: i32) -> (dispatcher: Self)
        ensures
            dispatcher@ == (DispatcherView {
                entry_count: entry_count as nat,
                list_id,
                last_fire: Map::empty(),
            }),
    {
        HotkeyDispatcher { entry_count, list_id, last_fire: Vec::new() }
    }

    fn last_fired(&self, id: i32) -> (fired: Option<u64>)
        ensures
            match fired {
                Some(time) => self@.last_fire.contains_key(id) && self@.last_fire[id] == time,
                None => !self@.last_fire.contains_key(id),
            },
    {
        let mut index: usize = self.last_fire.len();
        while index > 0
            invariant
                index <= self.last_fire@.len(),
                forall|k: int|
                    index <= k < self.last_fire@.len() ==> (#[trigger] self.last_fire@[k]).0 != id,
            decreases index,
        {
            index = index - 1;
            if self.last_fire[index].0 == id {
                let time = self.last_fire[index].1;
                proof {
                    lemma_fire_map_latest(self.last_fire@, index as int, id);
                }
                return Some(time);
            }
        }
        proof {
            lemma_fire_map_absent(self.last_fire@, id);
        }
        None
    }

    /// Handles a press of hotkey `id` at `now` milliseconds: a repeat of the
    /// same id within `DEBOUNCE_MS` is ignored and forgotten; any other press
    /// is remembered, then shows the entry list, copies an entry's secret, or
    /// matches nothing.
    pub fn on_hotkey(&mut self, id: i32, now: u64) -> (action: HotkeyAction)
        ensures
            final(self)@.entry_count == old(self)@.entry_count,
            final(self)@.list_id == old(self)@.list_id,
            too_soon(old(self)@.last_fire, id, now) ==> action == HotkeyAction::Ignore
                && final(self)@ == old(self)@,
            !too_soon(old(self)@.last_fire, id, now) ==> action == action_for(old(self)@, id)
                && final(self)@.last_fire == old(self)@.last_fire.insert(id, now),
    {
        match self.last_fired(id) {
            Some(previous) => {
                let elapsed: u64 = if now >= previous {
                    now - previous
                } else {
                    0
                };
                if elapsed < DEBOUNCE_MS {
                    return HotkeyAction::Ignore;
                }
            },
            None => {},
        }
        let ghost fired = self.last_fire@;
        self.last_fire.push((id, now));
        assert(self.last_fire@.drop_last() =~= fired);
        if id == self.list_id {
            HotkeyAction::ShowEntryList
        } else if 1 <= id && (id as u64) <= (self.entry_count as u64) {
            HotkeyAction::CopyEntry((id - 1) as usize)
        } else {
            HotkeyAction::Unmatched(id)
        }
    }

    /// Handles a macOS hotkey event: the clear hotkey clears the clipboard
    /// when pressed; the list hotkey shows the list while held and hides it
    /// when released; an entry hotkey acts only when pressed, as `on_hotkey`.
    pub fn on_macos_event(&mut self, id: i32, pressed: bool, clear_id: i32, now: u64) -> (action:
        HotkeyAction)
        ensures
            id == clear_id ==> final(self)@ == old(self)@ && action == (if pressed {
                HotkeyAction::ClearClipboard
            } else {
                HotkeyAction::Ignore
            }),
            id != clear_id && id == old(self)@.list_id ==> final(self)@ == old(self)@ && action
                == (if pressed {
                HotkeyAction::ShowEntryList
            } else {
                HotkeyAction::HideEntryList
            }),
            id != clear_id && id != old(self)@.list_id && !pressed ==> final(self)@ == old(self)@
                && action == HotkeyAction::Ignore,
            id != clear_id && id != old(self)@.list_id && pressed ==> {
                &&& final(self)@.entry_count == old(self)@.entry_count
                &&& final(self)@.list_id == old(self)@.list_id
                &&& too_soon(old(self)@.last_fire, id, now) ==> action == HotkeyAction::Ignore
                    && final(self)@ == old(self)@
                &&& !too_soon(old(self)@.last_fire, id, now) ==> action == action_for(
                    old(self)@,
                    id,
                ) && final(self)@.last_fire == old(self)@.last_fire.insert(id, now)
            },
    {
        if id == clear_id {
            return if pressed {
                HotkeyAction::ClearClipboard
            } else {
                HotkeyAction::Ignore
            };
        }
        if id == self.list_id {
            return if pressed {
                HotkeyAction::ShowEntryList
            } else {
                HotkeyAction::HideEntryList
            };
        }
        if !pressed {
            return HotkeyAction::Ignore;
        }
        self.on_hotkey(id, now)
    }
}

proof fn lemma_fire_map_latest(fired: Seq<(i32, u64)>, index: int, id: i32)
    requires
        0 <= index < fired.len(),
        fired[index].0 == id,
        forall|k: int| index < k < fired.len() ==> (#[trigger] fired[k]).0 != id,
    ensures
        fire_map(fired).contains_key(id),
        fire_map(fired)[id] == fired[index].1,
    decreases fired.len(),
{
    if index < fired.len() - 1 {
        let shorter = fired.drop_last();
        assert forall|k: int| index < k < shorter.len() implies (#[trigger] shorter[k]).0 != id by {
            assert(shorter[k] == fired[k]);
        }
        lemma_fire_map_latest(shorter, index, id);
        assert(fired.last().0 != id);
    }
}

proof fn lemma_fire_map_absent(fired: Seq<(i32, u64)>, id: i32)
    requires
        forall|k: int| 0 <= k < fired.len() ==> (#[trigger] fired[k]).0 != id,
    ensures
        !fire_map(fired).contains_key(id),
    decreases fired.len(),
{
    if fired.len() > 0 {
        let shorter = fired.drop_last();
        assert forall|k: int| 0 <= k < shorter.len() implies (#[trigger] shorter[k]).0 != id by {
            assert(shorter[k] == fired[k]);
        }
        lemma_fire_map_absent(shorter, id);
        assert(fired.last().0 != id);
    }
}

} // verus!
