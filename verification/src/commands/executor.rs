//! Running a command: lookup, permission check, cooldown check, and the
//! update of the time of the last run.
//!
//! The executor performs no input or output. It hands the action of the
//! command back to its caller, who sends or replies.

use vstd::prelude::*;
use crate::chat::Badge;
use crate::chat::BadgeView;
use crate::chat::ChatMessageEvent;
use crate::chat::ChatMessageEventView;
use crate::commands::registry::CommandAction;
use crate::commands::registry::CommandActionView;
use crate::commands::registry::CommandDefinitionView;
use crate::commands::registry::CommandEntryView;
use crate::commands::registry::CommandRegistry;
use crate::commands::registry::entry_index;
use crate::commands::registry::lemma_entry_index;
use crate::commands::registry::lookup;
use crate::commands::registry::well_formed;
use crate::roles::permitted;
use crate::strings::ascii_lower;

verus! {

/// What a chat message asks for: the command that it names, the words after
/// the name, the message itself, and the time at which it is handled (in
/// milliseconds on the caller's clock).
#[derive(Debug, PartialEq, Eq)]
pub struct CommandContext {
    pub command_name: String,
    pub args: Vec<String>,
    pub message: ChatMessageEvent,
    pub now: u64,
}

/// The mathematical value of a [`CommandContext`].
pub struct CommandContextView {
    pub command_name: Seq<char>,
    pub args: Seq<Seq<char>>,
    pub message: ChatMessageEventView,
    pub now: u64,
}

impl View for CommandContext {
    type V = CommandContextView;

    open spec fn view(&self) -> CommandContextView {
        CommandContextView {
            command_name: self.command_name@,
            args: self.args.deep_view(),
            message: self.message@,
            now: self.now,
        }
    }
}

impl CommandContext {
    /// The badges of the sender.
    pub fn badges(&self) -> (r: &Vec<Badge>)
        ensures
            r.deep_view() == self@.message.badges,
    {
        &self.message.badges
    }

    /// The login name of the sender.
    pub fn username(&self) -> (r: &str)
        ensures
            r@ == self@.message.chatter_user_login,
    {
        self.message.chatter_user_login.as_str()
    }
}

/// How the execution of a command ended.
#[derive(Debug, PartialEq, Eq)]
pub enum CommandResult {
    /// The command ran: its action is to be carried out.
    Success(CommandAction),
    /// No enabled command has that trigger.
    NotFound,
    /// The sender may not run the command.
    PermissionDenied,
    /// The command still rests, for so many milliseconds.
    OnCooldown(u64),
}

/// The mathematical value of a [`CommandResult`].
pub enum CommandResultView {
    Success(CommandActionView),
    NotFound,
    PermissionDenied,
    OnCooldown(u64),
}

impl View for CommandResult {
    type V = CommandResultView;

    open spec fn view(&self) -> CommandResultView {
        match self {
            CommandResult::Success(action) => CommandResultView::Success(action@),
            CommandResult::NotFound => CommandResultView::NotFound,
            CommandResult::PermissionDenied => CommandResultView::PermissionDenied,
            CommandResult::OnCooldown(remaining) => CommandResultView::OnCooldown(*remaining),
        }
    }
}

/// The time that has passed since `last`; none where the clock reads less
/// than `last`.
pub open spec fn elapsed(last: u64, now: u64) -> int {
    if now >= last {
        now - last
    } else {
        0
    }
}

/// How long the command still rests at `now`: its cooldown less the time
/// since its last run, and never less than nothing.
pub open spec fn remaining_cooldown(d: CommandDefinitionView, now: u64) -> int {
    match d.last_triggered {
        None => 0,
        Some(last) => if elapsed(last, now) < d.cooldown {
            d.cooldown - elapsed(last, now)
        } else {
            0
        },
    }
}

/// The outcome for a sender with `badges` at `now`, where `found` is what
/// the registry holds under the trigger.
pub open spec fn decide(
    found: Option<CommandDefinitionView>,
    badges: Seq<BadgeView>,
    now: u64,
) -> CommandResultView {
    match found {
        None => CommandResultView::NotFound,
        Some(d) => if !d.enabled {
            CommandResultView::NotFound
        } else if !permitted(badges, d.permissions) {
            CommandResultView::PermissionDenied
        } else if remaining_cooldown(d, now) > 0 {
            CommandResultView::OnCooldown(remaining_cooldown(d, now) as u64)
        } else {
            CommandResultView::Success(d.action)
        },
    }
}

/// `d` after a run at `now`.
pub open spec fn triggered(d: CommandDefinitionView, now: u64) -> CommandDefinitionView {
    CommandDefinitionView { last_triggered: Some(now), ..d }
}

/// The registry after the execution of the command under `key`: where it
/// ran, its last run is `now`; else nothing changes.
pub open spec fn after_execution(
    entries: Seq<CommandEntryView>,
    key: Seq<char>,
    badges: Seq<BadgeView>,
    now: u64,
) -> Seq<CommandEntryView> {
    if decide(lookup(entries, key), badges, now) is Success {
        let k = entry_index(entries, key);
        entries.update(
            k,
            CommandEntryView { key: entries[k].key, definition: triggered(entries[k].definition, now) },
        )
    } else {
        entries
    }
}

impl CommandRegistry {
    /// Executes the command registered under `trigger` for a sender with
    /// `badges` at the time `now`. A command that is missing or disabled is
    /// not found; then the sender's permission is checked, then the
    /// cooldown. Only a successful run changes the registry: it records
    /// `now` as the time of the last run.
    pub fn execute(&mut self, trigger: &str, badges: &Vec<Badge>, now: u64) -> (r: CommandResult)
        ensures
            r@ == decide(lookup(old(self)@, ascii_lower(trigger@)), badges.deep_view(), now),
            final(self)@ == after_execution(
                old(self)@,
                ascii_lower(trigger@),
                badges.deep_view(),
                now,
            ),
            well_formed(old(self)@) ==> well_formed(final(self)@),
    {
        let ghost key = ascii_lower(trigger@);
        let ghost before = self@;
        proof {
            lemma_entry_index(before, key);
        }
        match self.get_mut(trigger) {
            None => CommandResult::NotFound,
            Some(def) => {
                if !def.enabled {
                    CommandResult::NotFound
                } else if !def.permissions.permits(badges) {
                    CommandResult::PermissionDenied
                } else {
                    let rest: u64 = match def.last_triggered {
                        None => 0,
                        Some(last) => {
                            let passed: u64 = if now >= last {
                                now - last
                            } else {
                                0
                            };
                            if passed < def.cooldown {
                                def.cooldown - passed
                            } else {
                                0
                            }
                        },
                    };
                    if rest > 0 {
                        CommandResult::OnCooldown(rest)
                    } else {
                        def.last_triggered = Some(now);
                        CommandResult::Success(def.action.clone())
                    }
                }
            },
        }
    }
}

/// Runs commands against a registry that it owns.
#[derive(Debug)]
pub struct CommandExecutor {
    registry: CommandRegistry,
}

impl View for CommandExecutor {
    type V = Seq<CommandEntryView>;

    closed spec fn view(&self) -> Seq<CommandEntryView> {
        self.registry@
    }
}

impl CommandExecutor {
    /// An executor for the commands of `registry`.
    pub fn new(registry: CommandRegistry) -> (r: CommandExecutor)
        ensures
            r@ == registry@,
    {
        CommandExecutor { registry }
    }

    /// The registry, with the times of the last runs.
    pub fn registry(&self) -> (r: &CommandRegistry)
        ensures
            r@ == self@,
    {
        &self.registry
    }

    /// Gives the registry back.
    pub fn into_registry(self) -> (r: CommandRegistry)
        ensures
            r@ == self@,
    {
        self.registry
    }

    /// Executes the command that `context` names, for its sender and at its
    /// time.
    pub fn execute(&mut self, context: &CommandContext) -> (r: CommandResult)
        ensures
            r@ == decide(
                lookup(old(self)@, ascii_lower(context@.command_name)),
                context@.message.badges,
                context@.now,
            ),
            final(self)@ == after_execution(
                old(self)@,
                ascii_lower(context@.command_name),
                context@.message.badges,
                context@.now,
            ),
            well_formed(old(self)@) ==> well_formed(final(self)@),
    {
        self.registry.execute(context.command_name.as_str(), &context.message.badges, context.now)
    }
}

/// After a successful run at `t0`, the command is on cooldown at every
/// later time `t1` before `t0` plus its cooldown, with the rest of the
/// cooldown as remaining time; from then on it runs again.
pub proof fn lemma_cooldown_after_success(
    d: CommandDefinitionView,
    badges: Seq<BadgeView>,
    t0: u64,
    t1: u64,
)
    requires
        decide(Some(d), badges, t0) is Success,
        t0 <= t1,
    ensures
        t1 - t0 < d.cooldown ==> decide(Some(triggered(d, t0)), badges, t1)
            == CommandResultView::OnCooldown((d.cooldown - (t1 - t0)) as u64),
        t1 - t0 >= d.cooldown ==> decide(Some(triggered(d, t0)), badges, t1)
            == CommandResultView::Success(d.action),
{
}

/// The remaining time is never negative and never more than the cooldown.
pub proof fn lemma_remaining_cooldown_bounds(d: CommandDefinitionView, now: u64)
    ensures
        0 <= remaining_cooldown(d, now) <= d.cooldown,
{
}

/// A run never moves the time of the last run backwards, as long as the
/// clock does not.
pub proof fn lemma_last_run_moves_forward(
    entries: Seq<CommandEntryView>,
    key: Seq<char>,
    badges: Seq<BadgeView>,
    now: u64,
    i: int,
)
    requires
        0 <= i < entries.len(),
        entries[i].definition.last_triggered matches Some(last) ==> last <= now,
    ensures
        after_execution(entries, key, badges, now).len() == entries.len(),
        match (
            entries[i].definition.last_triggered,
            after_execution(entries, key, badges, now)[i].definition.last_triggered,
        ) {
            (Some(before), Some(after)) => before <= after,
            (Some(_), None) => false,
            _ => true,
        },
{
    lemma_entry_index(entries, key);
}

} // verus!
