//! Chat messages as the backend sees them.

use vstd::prelude::*;
use vstd::std_specs::convert::FromSpecImpl;
use crate::text::push_char;

verus! {

/// A capability tag on the sender of a message: the set it belongs to
/// (`subscriber`, `vip`, `moderator`, `broadcaster`, ...) and its version
/// within that set.
#[derive(Debug, PartialEq, Eq)]
pub struct Badge {
    pub set_id: String,
    pub id: String,
}

/// The mathematical value of a [`Badge`].
pub struct BadgeView {
    pub set_id: Seq<char>,
    pub id: Seq<char>,
}

impl View for Badge {
    type V = BadgeView;

    open spec fn view(&self) -> BadgeView {
        BadgeView { set_id: self.set_id@, id: self.id@ }
    }
}

impl DeepView for Badge {
    type V = BadgeView;

    open spec fn deep_view(&self) -> BadgeView {
        self@
    }
}

impl Clone for Badge {
    fn clone(&self) -> (r: Self)
        ensures
            r@ == self@,
    {
        Badge { set_id: self.set_id.clone(), id: self.id.clone() }
    }
}

/// A chat message as the chat transport delivers it, already parsed.
#[derive(Debug, PartialEq, Eq)]
pub struct ChatMessageEvent {
    pub message_id: String,
    pub text: String,
    pub badges: Vec<Badge>,
    pub chatter_user_login: String,
    pub chatter_user_id: String,
    pub color: String,
}

/// The mathematical value of a [`ChatMessageEvent`].
pub struct ChatMessageEventView {
    pub message_id: Seq<char>,
    pub text: Seq<char>,
    pub badges: Seq<BadgeView>,
    pub chatter_user_login: Seq<char>,
    pub chatter_user_id: Seq<char>,
    pub color: Seq<char>,
}

impl View for ChatMessageEvent {
    type V = ChatMessageEventView;

    open spec fn view(&self) -> ChatMessageEventView {
        ChatMessageEventView {
            message_id: self.message_id@,
            text: self.text@,
            badges: self.badges.deep_view(),
            chatter_user_login: self.chatter_user_login@,
            chatter_user_id: self.chatter_user_id@,
            color: self.color@,
        }
    }
}

impl Clone for ChatMessageEvent {
    fn clone(&self) -> (r: Self)
        ensures
            r@ == self@,
    {
        let mut badges: Vec<Badge> = Vec::new();
        let mut i: usize = 0;
        assert(badges.deep_view() =~= self.badges.deep_view().take(0));
        while i < self.badges.len()
            invariant
                i <= self.badges.len(),
                badges.deep_view() == self.badges.deep_view().take(i as int),
            decreases self.badges.len() - i,
        {
            let ghost before = badges.deep_view();
            let copy = self.badges[i].clone();
            badges.push(copy);
            assert(badges.deep_view() =~= before.push(self.badges[i as int]@));
            i += 1;
            assert(badges.deep_view() =~= self.badges.deep_view().take(i as int));
        }
        assert(self.badges.deep_view().take(self.badges.len() as int) =~= self.badges.deep_view());
        ChatMessageEvent {
            message_id: self.message_id.clone(),
            text: self.text.clone(),
            badges,
            chatter_user_login: self.chatter_user_login.clone(),
            chatter_user_id: self.chatter_user_id.clone(),
            color: self.color.clone(),
        }
    }
}

/// A chat message as the backend keeps it: the badges are flattened to
/// labels of the form `set-version`.
#[derive(Debug, PartialEq, Eq)]
pub struct ChatMessage {
    pub message_id: String,
    pub message_text: String,
    pub badges: Vec<String>,
    pub username: String,
    pub user_id: String,
    pub color: String,
}

/// The mathematical value of a [`ChatMessage`].
pub struct ChatMessageView {
    pub message_id: Seq<char>,
    pub message_text: Seq<char>,
    pub badges: Seq<Seq<char>>,
    pub username: Seq<char>,
    pub user_id: Seq<char>,
    pub color: Seq<char>,
}

impl View for ChatMessage {
    type V = ChatMessageView;

    open spec fn view(&self) -> ChatMessageView {
        ChatMessageView {
            message_id: self.message_id@,
            message_text: self.message_text@,
            badges: self.badges.deep_view(),
            username: self.username@,
            user_id: self.user_id@,
            color: self.color@,
        }
    }
}

impl Clone for ChatMessage {
    fn clone(&self) -> (r: Self)
        ensures
            r@ == self@,
    {
        ChatMessage {
            message_id: self.message_id.clone(),
            message_text: self.message_text.clone(),
            badges: self.badges.clone(),
            username: self.username.clone(),
            user_id: self.user_id.clone(),
            color: self.color.clone(),
        }
    }
}

/// The label of a badge: its set, a hyphen, its version.
pub open spec fn badge_label(b: BadgeView) -> Seq<char> {
    b.set_id + seq!['-'] + b.id
}

/// The labels of `badges`, in order.
pub open spec fn badge_labels(badges: Seq<BadgeView>) -> Seq<Seq<char>> {
    Seq::new(badges.len(), |i: int| badge_label(badges[i]))
}

/// The message that the backend keeps for an event of the transport.
pub open spec fn chat_message_of(e: ChatMessageEventView) -> ChatMessageView {
    ChatMessageView {
        message_id: e.message_id,
        message_text: e.text,
        badges: badge_labels(e.badges),
        username: e.chatter_user_login,
        user_id: e.chatter_user_id,
        color: e.color,
    }
}

impl Badge {
    /// The label of this badge: its set, a hyphen, its version.
    pub fn label(&self) -> (r: String)
        ensures
            r@ == badge_label(self@),
    {
        let mut r = self.set_id.clone();
        push_char(&mut r, '-');
        r.append(self.id.as_str());
        assert(r@ =~= badge_label(self@));
        r
    }
}

impl From<ChatMessageEvent> for ChatMessage {
    /// Keeps every field of the event and flattens its badges to labels.
    fn from(msg: ChatMessageEvent) -> (r: ChatMessage)
        ensures
            r@ == chat_message_of(msg@),
    {
        let mut badges: Vec<String> = Vec::new();
        let mut i: usize = 0;
        while i < msg.badges.len()
            invariant
                i <= msg.badges.len(),
                badges.deep_view() == badge_labels(msg.badges.deep_view().take(i as int)),
            decreases msg.badges.len() - i,
        {
            let ghost before = badges.deep_view();
            let label = msg.badges[i].label();
            let ghost l = label@;
            badges.push(label);
            assert(badges.deep_view() =~= before.push(l));
            i += 1;
            assert(badges.deep_view() =~= badge_labels(msg.badges.deep_view().take(i as int)));
        }
        assert(msg.badges.deep_view().take(msg.badges.len() as int) =~= msg.badges.deep_view());
        ChatMessage {
            message_id: msg.message_id,
            message_text: msg.text,
            badges,
            username: msg.chatter_user_login,
            user_id: msg.chatter_user_id,
            color: msg.color,
        }
    }
}

/// The conversion is stated over views, in the contract of `from` itself.
impl FromSpecImpl<ChatMessageEvent> for ChatMessage {
    open spec fn obeys_from_spec() -> bool {
        false
    }

    open spec fn from_spec(msg: ChatMessageEvent) -> ChatMessage {
        choose|m: ChatMessage| m@ == chat_message_of(msg@)
    }
}


} // verus!
