//! Recognizing a command in a chat message.
//!
//! A message is a command when it starts with the prefix and a word
//! follows. That word, in ASCII lower case, names the command; the words
//! after it are its arguments.

use vstd::prelude::*;
use crate::chat::ChatMessageEvent;
use crate::chat::ChatMessageEventView;
use crate::commands::executor::CommandContext;
use crate::commands::executor::CommandContextView;
use crate::strings::ascii_lower;
use crate::strings::to_ascii_lower;
use crate::text::chars_of;
use crate::text::split_words;
use crate::text::words;

verus! {

/// Whether `text` starts with `prefix`.
pub open spec fn starts_with(text: Seq<char>, prefix: Seq<char>) -> bool {
    prefix.len() <= text.len() && text.take(prefix.len() as int) == prefix
}

/// The words of `text` after the prefix.
pub open spec fn words_after(text: Seq<char>, prefix: Seq<char>) -> Seq<Seq<char>> {
    words(text.skip(prefix.len() as int))
}

/// Whether `text` is a command for the prefix `prefix`.
pub open spec fn is_command(text: Seq<char>, prefix: Seq<char>) -> bool {
    starts_with(text, prefix) && words_after(text, prefix).len() > 0
}

/// The context that a command message stands for.
pub open spec fn parsed(
    message: ChatMessageEventView,
    prefix: Seq<char>,
    now: u64,
) -> CommandContextView {
    CommandContextView {
        command_name: ascii_lower(words_after(message.text, prefix)[0]),
        args: words_after(message.text, prefix).skip(1),
        message,
        now,
    }
}

/// Recognizes commands by their prefix.
#[derive(Debug)]
pub struct CommandParser {
    prefix: String,
}

impl View for CommandParser {
    type V = Seq<char>;

    /// The prefix.
    closed spec fn view(&self) -> Seq<char> {
        self.prefix@
    }
}

impl CommandParser {
    /// A parser for commands that start with `prefix`.
    pub fn new(prefix: &str) -> (r: CommandParser)
        ensures
            r@ == prefix@,
    {
        CommandParser { prefix: prefix.to_owned() }
    }

    /// A parser for commands that start with an exclamation mark.
    pub fn with_default_prefix() -> (r: CommandParser)
        ensures
            r@ == seq!['!'],
    {
        proof {
            reveal_strlit("!");
        }
        let r = CommandParser { prefix: "!".to_owned() };
        assert(r@ =~= seq!['!']);
        r
    }

    /// The prefix.
    pub fn prefix(&self) -> (r: &str)
        ensures
            r@ == self@,
    {
        self.prefix.as_str()
    }

    /// The context of the command in `message`, handled at `now`; `None`
    /// where the message is no command.
    pub fn parse(&self, message: ChatMessageEvent, now: u64) -> (r: Option<CommandContext>)
        ensures
            r is Some == is_command(message@.text, self@),
            r matches Some(c) ==> c@ == parsed(message@, self@, now),
    {
        let text = chars_of(message.text.as_str());
        let prefix = chars_of(self.prefix.as_str());
        if prefix.len() > text.len() {
            return None;
        }
        let mut i: usize = 0;
        while i < prefix.len()
            invariant
                text@ == message@.text,
                prefix@ == self@,
                i <= prefix.len() <= text.len(),
                forall|k: int| 0 <= k < i ==> text@[k] == prefix@[k],
            decreases prefix.len() - i,
        {
            if text[i] != prefix[i] {
                assert(text@.take(prefix.len() as int)[i as int] == text@[i as int]);
                assert(!starts_with(message@.text, self@));
                return None;
            }
            i += 1;
        }
        assert(text@.take(prefix.len() as int) =~= prefix@);
        let mut rest: Vec<char> = Vec::new();
        while i < text.len()
            invariant
                prefix.len() <= i <= text.len(),
                rest@ == text@.subrange(prefix.len() as int, i as int),
            decreases text.len() - i,
        {
            rest.push(text[i]);
            i += 1;
            assert(rest@ =~= text@.subrange(prefix.len() as int, i as int));
        }
        assert(rest@ =~= text@.skip(prefix.len() as int));
        let mut found = split_words(&rest);
        if found.len() == 0 {
            return None;
        }
        let ghost all = found.deep_view();
        let name = found.remove(0);
        assert(found.deep_view() =~= all.skip(1));
        Some(
            CommandContext {
                command_name: to_ascii_lower(name.as_str()),
                args: found,
                message,
                now,
            },
        )
    }
}

} // verus!
