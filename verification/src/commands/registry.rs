//! The command registry: a mapping from trigger to command definition.
//!
//! Triggers are case-normalized: the registry keys every definition by its
//! trigger in ASCII lower case, and looks triggers up in that form.

use vstd::prelude::*;
use crate::roles::PermitedRoles;
use crate::seqs::first_index;
use crate::seqs::lemma_first_index;
use crate::seqs::lemma_first_index_is;
use crate::strings::ascii_lower;
use crate::strings::lemma_ascii_lower_idempotent;
use crate::strings::str_eq;
use crate::strings::to_ascii_lower;

verus! {

/// What a command does when it runs: send a message to the chat, or reply
/// to the message that triggered it.
#[derive(Debug, PartialEq, Eq)]
pub enum CommandAction {
    Send(String),
    Reply(String),
}

/// The mathematical value of a [`CommandAction`].
pub enum CommandActionView {
    Send(Seq<char>),
    Reply(Seq<char>),
}

impl View for CommandAction {
    type V = CommandActionView;

    open spec fn view(&self) -> CommandActionView {
        match self {
            CommandAction::Send(text) => CommandActionView::Send(text@),
            CommandAction::Reply(text) => CommandActionView::Reply(text@),
        }
    }
}

impl Clone for CommandAction {
    fn clone(&self) -> (r: Self)
        ensures
            r@ == self@,
    {
        match self {
            CommandAction::Send(text) => CommandAction::Send(text.clone()),
            CommandAction::Reply(text) => CommandAction::Reply(text.clone()),
        }
    }
}

/// A command: its trigger, what it does, who may run it, how long it rests
/// between two runs (in milliseconds), whether it is enabled, and when it
/// last ran (in milliseconds on the caller's clock; `None` before its first
/// run).
#[derive(Debug, PartialEq, Eq)]
pub struct CommandDefinition {
    pub trigger: String,
    pub action: CommandAction,
    pub permissions: PermitedRoles,
    pub cooldown: u64,
    pub enabled: bool,
    pub last_triggered: Option<u64>,
}

/// The mathematical value of a [`CommandDefinition`].
pub struct CommandDefinitionView {
    pub trigger: Seq<char>,
    pub action: CommandActionView,
    pub permissions: PermitedRoles,
    pub cooldown: u64,
    pub enabled: bool,
    pub last_triggered: Option<u64>,
}

impl View for CommandDefinition {
    type V = CommandDefinitionView;

    open spec fn view(&self) -> CommandDefinitionView {
        CommandDefinitionView {
            trigger: self.trigger@,
            action: self.action@,
            permissions: self.permissions,
            cooldown: self.cooldown,
            enabled: self.enabled,
            last_triggered: self.last_triggered,
        }
    }
}

impl Clone for CommandDefinition {
    fn clone(&self) -> (r: Self)
        ensures
            r@ == self@,
    {
        CommandDefinition {
            trigger: self.trigger.clone(),
            action: self.action.clone(),
            permissions: self.permissions,
            cooldown: self.cooldown,
            enabled: self.enabled,
            last_triggered: self.last_triggered,
        }
    }
}

impl CommandDefinition {
    /// A new, enabled command that has never run. Its trigger is
    /// `trigger` in ASCII lower case.
    pub fn new(
        trigger: &str,
        action: CommandAction,
        permissions: PermitedRoles,
        cooldown: u64,
    ) -> (r: CommandDefinition)
        ensures
            r@ == (CommandDefinitionView {
                trigger: ascii_lower(trigger@),
                action: action@,
                permissions,
                cooldown,
                enabled: true,
                last_triggered: None,
            }),
    {
        CommandDefinition {
            trigger: to_ascii_lower(trigger),
            action,
            permissions,
            cooldown,
            enabled: true,
            last_triggered: None,
        }
    }
}

/// One entry of the registry: the normalized trigger and the definition
/// registered under it.
pub struct CommandEntryView {
    pub key: Seq<char>,
    pub definition: CommandDefinitionView,
}

/// The keys of the entries, in their order.
pub open spec fn entry_keys(entries: Seq<CommandEntryView>) -> Seq<Seq<char>> {
    Seq::new(entries.len(), |i: int| entries[i].key)
}

/// The position of the first entry with the key `key`, or the number of
/// entries where there is none.
pub open spec fn entry_index(entries: Seq<CommandEntryView>, key: Seq<char>) -> int {
    first_index(entry_keys(entries), key)
}

/// Whether some entry has the key `key`.
pub open spec fn has_key(entries: Seq<CommandEntryView>, key: Seq<char>) -> bool {
    entry_index(entries, key) < entries.len()
}

/// The definition registered under `key`, if there is one.
pub open spec fn lookup(entries: Seq<CommandEntryView>, key: Seq<char>) -> Option<
    CommandDefinitionView,
> {
    if has_key(entries, key) {
        Some(entries[entry_index(entries, key)].definition)
    } else {
        None
    }
}

/// The entries after `definition` is registered under `key`: it replaces
/// the entry with that key in place, or goes to the end.
pub open spec fn upsert(
    entries: Seq<CommandEntryView>,
    key: Seq<char>,
    definition: CommandDefinitionView,
) -> Seq<CommandEntryView> {
    let entry = CommandEntryView { key, definition };
    if has_key(entries, key) {
        entries.update(entry_index(entries, key), entry)
    } else {
        entries.push(entry)
    }
}

/// The entries without the one registered under `key`; the others keep
/// their order.
pub open spec fn without(entries: Seq<CommandEntryView>, key: Seq<char>) -> Seq<CommandEntryView> {
    if has_key(entries, key) {
        entries.remove(entry_index(entries, key))
    } else {
        entries
    }
}

/// No two entries have the same key, and every key is in lower case.
pub open spec fn well_formed(entries: Seq<CommandEntryView>) -> bool {
    &&& forall|i: int, j: int| 0 <= i < j < entries.len() ==> entries[i].key != entries[j].key
    &&& forall|i: int| 0 <= i < entries.len() ==> ascii_lower(#[trigger] entries[i].key) == entries[i].key
}

/// `definition` with the trigger `key`.
pub open spec fn with_trigger(definition: CommandDefinitionView, key: Seq<char>) -> CommandDefinitionView {
    CommandDefinitionView { trigger: key, ..definition }
}

/// `entry_index` is within the entries exactly when one of them has the
/// key, and then it is the first such.
pub proof fn lemma_entry_index(entries: Seq<CommandEntryView>, key: Seq<char>)
    ensures
        0 <= entry_index(entries, key) <= entries.len(),
        has_key(entries, key) ==> entries[entry_index(entries, key)].key == key,
        forall|i: int| 0 <= i < entry_index(entries, key) ==> (#[trigger] entries[i]).key != key,
{
    lemma_first_index(entry_keys(entries), key);
    assert forall|i: int| 0 <= i < entry_index(entries, key) implies (#[trigger] entries[i]).key
        != key by {
        assert(entry_keys(entries)[i] == entries[i].key);
    }
}

/// A position that holds the key after positions that do not is
/// `entry_index`.
pub proof fn lemma_entry_index_is(entries: Seq<CommandEntryView>, key: Seq<char>, k: int)
    requires
        0 <= k <= entries.len(),
        forall|i: int| 0 <= i < k ==> (#[trigger] entries[i]).key != key,
        k < entries.len() ==> entries[k].key == key,
    ensures
        entry_index(entries, key) == k,
{
    assert forall|i: int| 0 <= i < k implies entry_keys(entries)[i] != key by {
        assert(entries[i].key != key);
    }
    lemma_first_index_is(entry_keys(entries), key, k);
}

/// After a definition is registered under a key, the key leads to that
/// definition, and every other key leads to what it led to before.
pub proof fn lemma_lookup_after_upsert(
    entries: Seq<CommandEntryView>,
    key: Seq<char>,
    definition: CommandDefinitionView,
    other: Seq<char>,
)
    ensures
        lookup(upsert(entries, key, definition), key) == Some(definition),
        other != key ==> lookup(upsert(entries, key, definition), other) == lookup(entries, other),
{
    let after = upsert(entries, key, definition);
    let k = entry_index(entries, key);
    lemma_entry_index(entries, key);
    lemma_entry_index_is(after, key, k);
    if other != key {
        let j = entry_index(entries, other);
        lemma_entry_index(entries, other);
        assert forall|i: int| 0 <= i < j implies (#[trigger] after[i]).key != other by {
            if i != k {
                assert(after[i] == entries[i]);
            }
        }
        if j < entries.len() {
            assert(j != k);
            assert(after[j] == entries[j]);
        }
        lemma_entry_index_is(after, other, if j < entries.len() { j } else { after.len() as int });
    }
}

/// Registering the same definition twice is registering it once.
pub proof fn lemma_upsert_is_idempotent(
    entries: Seq<CommandEntryView>,
    key: Seq<char>,
    definition: CommandDefinitionView,
)
    ensures
        upsert(upsert(entries, key, definition), key, definition) == upsert(
            entries,
            key,
            definition,
        ),
{
    let once = upsert(entries, key, definition);
    let k = entry_index(entries, key);
    lemma_entry_index(entries, key);
    lemma_entry_index_is(once, key, k);
    assert(upsert(once, key, definition) =~= once);
}

/// After the definition under a key is removed, the key leads nowhere, as
/// long as no two entries have the same key; every other key leads to what
/// it led to before. Removing what is not there changes nothing.
pub proof fn lemma_lookup_after_without(
    entries: Seq<CommandEntryView>,
    key: Seq<char>,
    other: Seq<char>,
)
    requires
        well_formed(entries),
    ensures
        lookup(without(entries, key), key) is None,
        other != key ==> lookup(without(entries, key), other) == lookup(entries, other),
        !has_key(entries, key) ==> without(entries, key) == entries,
        well_formed(without(entries, key)),
{
    let after = without(entries, key);
    let k = entry_index(entries, key);
    lemma_entry_index(entries, key);
    if has_key(entries, key) {
        assert forall|i: int| 0 <= i < after.len() implies (#[trigger] after[i]).key != key by {
            if i < k {
                assert(after[i] == entries[i]);
            } else {
                assert(after[i] == entries[i + 1]);
            }
        }
        lemma_entry_index_is(after, key, after.len() as int);
        assert forall|i: int, j: int| 0 <= i < j < after.len() implies after[i].key
            != after[j].key by {
            let x = if i < k { i } else { i + 1 };
            let y = if j < k { j } else { j + 1 };
            assert(after[i] == entries[x] && after[j] == entries[y]);
        }
        assert forall|i: int| 0 <= i < after.len() implies ascii_lower(#[trigger] after[i].key)
            == after[i].key by {
            let x = if i < k { i } else { i + 1 };
            assert(after[i] == entries[x]);
        }
        if other != key {
            let j = entry_index(entries, other);
            lemma_entry_index(entries, other);
            if j < entries.len() {
                let target = if j < k { j } else { j - 1 };
                assert forall|i: int| 0 <= i < target implies (#[trigger] after[i]).key
                    != other by {
                    let x = if i < k { i } else { i + 1 };
                    assert(after[i] == entries[x]);
                }
                assert(after[target] == entries[j]);
                lemma_entry_index_is(after, other, target);
            } else {
                assert forall|i: int| 0 <= i < after.len() implies (#[trigger] after[i]).key
                    != other by {
                    let x = if i < k { i } else { i + 1 };
                    assert(after[i] == entries[x]);
                }
                lemma_entry_index_is(after, other, after.len() as int);
            }
        }
    }
}

/// A new definition under the key of an entry keeps the entries well
/// formed.
pub proof fn lemma_update_keeps_well_formed(entries: Seq<CommandEntryView>, k: int)
    requires
        0 <= k <= entries.len(),
    ensures
        well_formed(entries) && k < entries.len() ==> forall|d: CommandDefinitionView|
            well_formed(
                #[trigger] entries.update(
                    k,
                    CommandEntryView { key: entries[k].key, definition: d },
                ),
            ),
{
    if well_formed(entries) && k < entries.len() {
        assert forall|d: CommandDefinitionView|
            well_formed(
                #[trigger] entries.update(
                    k,
                    CommandEntryView { key: entries[k].key, definition: d },
                ),
            ) by {
            let after = entries.update(k, CommandEntryView { key: entries[k].key, definition: d });
            assert forall|i: int, j: int| 0 <= i < j < after.len() implies after[i].key
                != after[j].key by {
                assert(after[i].key == entries[i].key && after[j].key == entries[j].key);
            }
            assert forall|i: int| 0 <= i < after.len() implies ascii_lower(#[trigger] after[i].key)
                == after[i].key by {
                assert(after[i].key == entries[i].key);
            }
        }
    }
}

#[derive(Debug)]
struct CommandEntry {
    key: String,
    definition: CommandDefinition,
}

/// The registry of commands, in the order in which their triggers were
/// first registered.
#[derive(Debug)]
pub struct CommandRegistry {
    entries: Vec<CommandEntry>,
}

impl View for CommandRegistry {
    type V = Seq<CommandEntryView>;

    closed spec fn view(&self) -> Seq<CommandEntryView> {
        Seq::new(
            self.entries@.len(),
            |i: int|
                CommandEntryView {
                    key: self.entries@[i].key@,
                    definition: self.entries@[i].definition@,
                },
        )
    }
}

impl Clone for CommandRegistry {
    fn clone(&self) -> (r: Self)
        ensures
            r@ == self@,
    {
        let mut entries: Vec<CommandEntry> = Vec::new();
        let mut i: usize = 0;
        while i < self.entries.len()
            invariant
                i <= self.entries.len(),
                entries@.len() == i,
                forall|k: int|
                    0 <= k < i ==> (#[trigger] entries@[k]).key@ == self.entries@[k].key@
                        && entries@[k].definition@ == self.entries@[k].definition@,
            decreases self.entries.len() - i,
        {
            entries.push(
                CommandEntry {
                    key: self.entries[i].key.clone(),
                    definition: self.entries[i].definition.clone(),
                },
            );
            i += 1;
        }
        let r = CommandRegistry { entries };
        assert(r@ =~= self@);
        r
    }
}

impl Default for CommandRegistry {
    fn default() -> (r: CommandRegistry)
        ensures
            r@ == Seq::<CommandEntryView>::empty(),
    {
        CommandRegistry::new()
    }
}

impl CommandRegistry {
    /// An empty registry.
    pub fn new() -> (r: CommandRegistry)
        ensures
            r@ == Seq::<CommandEntryView>::empty(),
            well_formed(r@),
    {
        let r = CommandRegistry { entries: Vec::new() };
        assert(r@ =~= Seq::<CommandEntryView>::empty());
        r
    }

    /// The number of registered commands.
    pub fn len(&self) -> (n: usize)
        ensures
            n == self@.len(),
    {
        self.entries.len()
    }

    /// Whether no command is registered.
    pub fn is_empty(&self) -> (r: bool)
        ensures
            r == (self@.len() == 0),
    {
        self.entries.len() == 0
    }

    /// The position of the entry with the normalized key `key`.
    fn find(&self, key: &str) -> (k: usize)
        ensures
            k == entry_index(self@, key@),
            k <= self.entries@.len(),
            self.entries@.len() == self@.len(),
            k < self@.len() ==> self@[k as int].key == key@,
    {
        let mut k: usize = 0;
        while k < self.entries.len()
            invariant
                k <= self.entries.len(),
                forall|i: int| 0 <= i < k ==> (#[trigger] self@[i]).key != key@,
            ensures
                k < self.entries.len() ==> self@[k as int].key == key@,
            decreases self.entries.len() - k,
        {
            assert(self@[k as int].key == self.entries[k as int].key@);
            if str_eq(self.entries[k].key.as_str(), key) {
                break;
            }
            k += 1;
        }
        proof {
            lemma_entry_index_is(self@, key@, k as int);
        }
        k
    }

    /// Registers `def` under its trigger in lower case: it replaces the
    /// definition with that trigger, or is added at the end.
    pub fn register(&mut self, def: CommandDefinition)
        ensures
            final(self)@ == upsert(
                old(self)@,
                ascii_lower(def@.trigger),
                with_trigger(def@, ascii_lower(def@.trigger)),
            ),
            well_formed(old(self)@) ==> well_formed(final(self)@),
    {
        let ghost given = def@.trigger;
        let key = to_ascii_lower(def.trigger.as_str());
        let k = self.find(key.as_str());
        let ghost entry = CommandEntryView { key: key@, definition: with_trigger(def@, key@) };
        let mut def = def;
        def.trigger = key.clone();
        let new_entry = CommandEntry { key, definition: def };
        if k < self.entries.len() {
            self.entries[k] = new_entry;
            assert(self@ =~= old(self)@.update(k as int, entry));
        } else {
            self.entries.push(new_entry);
            assert(self@ =~= old(self)@.push(entry));
        }
        proof {
            lemma_ascii_lower_idempotent(given);
            lemma_entry_index(old(self)@, entry.key);
            if well_formed(old(self)@) {
                assert forall|i: int, j: int| 0 <= i < j < self@.len() implies self@[i].key
                    != self@[j].key by {
                    if k < old(self)@.len() {
                        assert(old(self)@[k as int].key == entry.key);
                        assert(self@[i].key == old(self)@[i].key);
                        assert(self@[j].key == old(self)@[j].key);
                    } else if j == old(self)@.len() {
                        assert(self@[i] == old(self)@[i]);
                    }
                }
                assert forall|i: int| 0 <= i < self@.len() implies ascii_lower(
                    #[trigger] self@[i].key,
                ) == self@[i].key by {
                    if i != k {
                        assert(self@[i] == old(self)@[i]);
                    }
                }
            }
        }
    }

    /// Removes the definition registered under `trigger`; does nothing
    /// where there is none.
    pub fn unregister(&mut self, trigger: &str)
        ensures
            final(self)@ == without(old(self)@, ascii_lower(trigger@)),
            well_formed(old(self)@) ==> well_formed(final(self)@),
    {
        let key = to_ascii_lower(trigger);
        let k = self.find(key.as_str());
        if k < self.entries.len() {
            self.entries.remove(k);
            assert(self@ =~= old(self)@.remove(k as int));
        }
    }

    /// The definition registered under `trigger`.
    pub fn get(&self, trigger: &str) -> (r: Option<&CommandDefinition>)
        ensures
            r is Some == has_key(self@, ascii_lower(trigger@)),
            r matches Some(d) ==> Some(d@) == lookup(self@, ascii_lower(trigger@)),
    {
        let key = to_ascii_lower(trigger);
        let k = self.find(key.as_str());
        if k < self.entries.len() {
            Some(&self.entries[k].definition)
        } else {
            None
        }
    }

    /// Whether a definition is registered under `trigger`.
    pub fn contains(&self, trigger: &str) -> (r: bool)
        ensures
            r == has_key(self@, ascii_lower(trigger@)),
    {
        let key = to_ascii_lower(trigger);
        self.find(key.as_str()) < self.entries.len()
    }

    /// Mutable access to the definition registered under `trigger`. What
    /// the caller writes through the reference becomes that entry's
    /// definition; the keys stay as they are.
    pub fn get_mut(&mut self, trigger: &str) -> (r: Option<&mut CommandDefinition>)
        ensures
            r is Some == has_key(old(self)@, ascii_lower(trigger@)),
            r is None ==> final(self)@ == old(self)@,
            r matches Some(d) ==> ({
                let k = entry_index(old(self)@, ascii_lower(trigger@));
                &&& d@ == old(self)@[k].definition
                &&& final(self)@ == old(self)@.update(
                    k,
                    CommandEntryView { key: ascii_lower(trigger@), definition: final(d)@ },
                )
            }),
            well_formed(old(self)@) ==> well_formed(final(self)@),
    {
        let key = to_ascii_lower(trigger);
        let k = self.find(key.as_str());
        proof {
            lemma_update_keeps_well_formed(self@, k as int);
        }
        if k < self.entries.len() {
            Some(&mut self.entries[k].definition)
        } else {
            None
        }
    }

    /// Sets the enabled flag of the command registered under `trigger`, and
    /// tells whether there is such a command.
    pub fn toggle(&mut self, trigger: &str, enabled: bool) -> (found: bool)
        ensures
            found == has_key(old(self)@, ascii_lower(trigger@)),
            !found ==> final(self)@ == old(self)@,
            found ==> ({
                let k = entry_index(old(self)@, ascii_lower(trigger@));
                final(self)@ == old(self)@.update(
                    k,
                    CommandEntryView {
                        key: old(self)@[k].key,
                        definition: CommandDefinitionView { enabled, ..old(self)@[k].definition },
                    },
                )
            }),
            well_formed(old(self)@) ==> well_formed(final(self)@),
    {
        let key = to_ascii_lower(trigger);
        let k = self.find(key.as_str());
        if k < self.entries.len() {
            self.entries[k].definition.enabled = enabled;
            assert(self@ =~= old(self)@.update(
                k as int,
                CommandEntryView {
                    key: old(self)@[k as int].key,
                    definition: CommandDefinitionView {
                        enabled,
                        ..old(self)@[k as int].definition
                    },
                },
            ));
            true
        } else {
            false
        }
    }

    /// All definitions, in the order in which their triggers were first
    /// registered.
    pub fn list(&self) -> (r: Vec<&CommandDefinition>)
        ensures
            r@.len() == self@.len(),
            forall|i: int| 0 <= i < r@.len() ==> (#[trigger] r@[i])@ == self@[i].definition,
    {
        let mut r: Vec<&CommandDefinition> = Vec::new();
        let mut i: usize = 0;
        while i < self.entries.len()
            invariant
                i <= self.entries.len(),
                r@.len() == i,
                forall|j: int| 0 <= j < i ==> (#[trigger] r@[j])@ == self@[j].definition,
            decreases self.entries.len() - i,
        {
            r.push(&self.entries[i].definition);
            i += 1;
        }
        r
    }
}

} // verus!
