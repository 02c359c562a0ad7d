//! The events of the chat connection other than messages, and what follows
//! from each.

use vstd::prelude::*;
use crate::dispatch::Effect;
use crate::dispatch::EffectView;
use crate::dispatch::LogLevel;
use crate::strings::concat;
use crate::strings::concat_strs;
use crate::strings::contains_text;
use crate::strings::has_subtext;
use crate::strings::texts_of;
use crate::text::is_blank;
use crate::text::str_is_blank;

verus! {

/// How long to wait after connecting before the welcome message is sent,
/// in milliseconds.
pub const WELCOME_DELAY_MS: u64 = 500;

/// A ban or a timeout of a user.
#[derive(Debug, PartialEq, Eq)]
pub struct BanEvent {
    pub user_name: String,
    pub moderator_user_name: String,
    pub reason: String,
    pub is_permanent: bool,
    pub ends_at: Option<String>,
}

/// The mathematical value of a [`BanEvent`].
pub struct BanEventView {
    pub user_name: Seq<char>,
    pub moderator_user_name: Seq<char>,
    pub reason: Seq<char>,
    pub is_permanent: bool,
    pub ends_at: Option<Seq<char>>,
}

impl View for BanEvent {
    type V = BanEventView;

    open spec fn view(&self) -> BanEventView {
        BanEventView {
            user_name: self.user_name@,
            moderator_user_name: self.moderator_user_name@,
            reason: self.reason@,
            is_permanent: self.is_permanent,
            ends_at: match self.ends_at {
                Some(t) => Some(t@),
                None => None,
            },
        }
    }
}

/// An event of the chat connection that is no message.
#[derive(Debug, PartialEq, Eq)]
pub enum ConnectionEvent {
    /// The connection is ready.
    Connected,
    /// A user was banned or timed out.
    ChannelBan(BanEvent),
    /// A user was unbanned.
    ChannelUnban { user_name: String, moderator_user_name: String },
    /// The account got new tokens: the access token, then the refresh
    /// token.
    TokensRefreshed(String, String),
    /// The connection is lost.
    Disconnected,
    /// The connection warns.
    Warning(String),
    /// The connection reports an error.
    Error(String),
    /// Anything else: a deleted message, a cleared chat, changed settings.
    Other,
}

/// The mathematical value of a [`ConnectionEvent`].
pub enum ConnectionEventView {
    Connected,
    ChannelBan(BanEventView),
    ChannelUnban { user_name: Seq<char>, moderator_user_name: Seq<char> },
    TokensRefreshed(Seq<char>, Seq<char>),
    Disconnected,
    Warning(Seq<char>),
    Error(Seq<char>),
    Other,
}

impl View for ConnectionEvent {
    type V = ConnectionEventView;

    open spec fn view(&self) -> ConnectionEventView {
        match self {
            ConnectionEvent::Connected => ConnectionEventView::Connected,
            ConnectionEvent::ChannelBan(ban) => ConnectionEventView::ChannelBan(ban@),
            ConnectionEvent::ChannelUnban { user_name, moderator_user_name } => {
                ConnectionEventView::ChannelUnban {
                    user_name: user_name@,
                    moderator_user_name: moderator_user_name@,
                }
            },
            ConnectionEvent::TokensRefreshed(access, refresh) => {
                ConnectionEventView::TokensRefreshed(access@, refresh@)
            },
            ConnectionEvent::Disconnected => ConnectionEventView::Disconnected,
            ConnectionEvent::Warning(text) => ConnectionEventView::Warning(text@),
            ConnectionEvent::Error(text) => ConnectionEventView::Error(text@),
            ConnectionEvent::Other => ConnectionEventView::Other,
        }
    }
}

/// The words that say how long a ban lasts: nothing for a ban without an
/// end.
pub open spec fn ban_duration(ends_at: Option<Seq<char>>) -> Seq<char> {
    match ends_at {
        Some(t) => concat(seq![" (until "@, t, ")"@]),
        None => Seq::empty(),
    }
}

/// The line that reports a ban or a timeout.
pub open spec fn ban_line(ban: BanEventView) -> Seq<char> {
    concat(
        seq![
            ban.user_name,
            " was "@,
            if ban.is_permanent {
                "permanently banned"@
            } else {
                "timed out"@
            },
            " by "@,
            ban.moderator_user_name,
            ": "@,
            ban.reason,
            ban_duration(ban.ends_at),
        ],
    )
}

/// The line that reports that a user was unbanned.
pub open spec fn unban_line(user_name: Seq<char>, moderator_user_name: Seq<char>) -> Seq<char> {
    concat(seq![user_name, " was unbanned by "@, moderator_user_name])
}

/// What follows from an event of the connection.
pub open spec fn connection_effects(event: ConnectionEventView) -> Seq<EffectView> {
    match event {
        ConnectionEventView::Connected => seq![
            EffectView::Log(LogLevel::Info, "EventSub ready - listening for chat events"@),
        ],
        ConnectionEventView::ChannelBan(ban) => seq![EffectView::Log(LogLevel::Warn, ban_line(ban))],
        ConnectionEventView::ChannelUnban { user_name, moderator_user_name } => seq![
            EffectView::Log(LogLevel::Info, unban_line(user_name, moderator_user_name)),
        ],
        ConnectionEventView::TokensRefreshed(auth_token, refresh_token) => seq![
            EffectView::SaveTokens { auth_token, refresh_token },
        ],
        ConnectionEventView::Disconnected => seq![
            EffectView::ConnectionFailure("Disconnected"@),
            EffectView::Log(LogLevel::Error, "Disconnected from Twitch"@),
            EffectView::Stop,
        ],
        ConnectionEventView::Warning(text) => seq![EffectView::Log(LogLevel::Warn, text)],
        ConnectionEventView::Error(text) => seq![
            EffectView::Log(LogLevel::Error, concat(seq!["Twitch error: "@, text])),
        ],
        ConnectionEventView::Other => Seq::empty(),
    }
}

/// What follows from the attempt to connect, where `error` is what went
/// wrong, if anything did.
pub open spec fn connect_effects(error: Option<Seq<char>>) -> Seq<EffectView> {
    match error {
        None => seq![
            EffectView::ConnectionSuccess("Connected"@),
            EffectView::Log(LogLevel::Info, "Successfully connected to Twitch chat"@),
        ],
        Some(e) => seq![
            EffectView::ConnectionFailure("Connection Failed"@),
            EffectView::Log(LogLevel::Error, concat(seq!["Failed to connect: "@, e])),
            EffectView::Stop,
        ],
    }
}

/// Whether an error of the chat says that the account lacks the right to
/// write.
pub open spec fn is_forbidden(error: Seq<char>) -> bool {
    has_subtext(error, "403"@) || has_subtext(error, "Forbidden"@)
}

/// The line that reports how sending the welcome message went.
pub open spec fn welcome_line(message: Seq<char>, error: Option<Seq<char>>) -> (LogLevel, Seq<char>) {
    match error {
        None => (LogLevel::Info, concat(seq!["✓ Sent welcome message: "@, message])),
        Some(e) => if is_forbidden(e) {
            (
                LogLevel::Error,
                "❌ Cannot send welcome message - Missing OAuth scope 'user:write:chat'. Please re-authorize with write permissions."@,
            )
        } else {
            (LogLevel::Error, concat(seq!["❌ Failed to send welcome message: "@, e]))
        },
    }
}

/// The line that reports a ban or a timeout.
pub fn ban_report(ban: &BanEvent) -> (r: String)
    ensures
        r@ == ban_line(ban@),
{
    let mut tail: Vec<&str> = Vec::new();
    match &ban.ends_at {
        Some(t) => {
            tail.push(" (until ");
            tail.push(t.as_str());
            tail.push(")");
            assert(texts_of(tail@) =~= seq![" (until "@, t@, ")"@]);
        },
        None => {
            assert(texts_of(tail@) =~= Seq::<Seq<char>>::empty());
        },
    }
    let duration = concat_strs(&tail);
    assert(duration@ == ban_duration(ban@.ends_at));
    let mut parts: Vec<&str> = Vec::new();
    parts.push(ban.user_name.as_str());
    parts.push(" was ");
    parts.push(
        if ban.is_permanent {
            "permanently banned"
        } else {
            "timed out"
        },
    );
    parts.push(" by ");
    parts.push(ban.moderator_user_name.as_str());
    parts.push(": ");
    parts.push(ban.reason.as_str());
    parts.push(duration.as_str());
    assert(texts_of(parts@) =~= seq![
        ban@.user_name,
        " was "@,
        if ban@.is_permanent {
            "permanently banned"@
        } else {
            "timed out"@
        },
        " by "@,
        ban@.moderator_user_name,
        ": "@,
        ban@.reason,
        ban_duration(ban@.ends_at),
    ]);
    concat_strs(&parts)
}

/// `prefix` followed by `text`.
fn prefixed(prefix: &str, text: &str) -> (r: String)
    ensures
        r@ == concat(seq![prefix@, text@]),
{
    let mut parts: Vec<&str> = Vec::new();
    parts.push(prefix);
    parts.push(text);
    assert(texts_of(parts@) =~= seq![prefix@, text@]);
    concat_strs(&parts)
}

/// What follows from an event of the connection.
pub fn effects_of_event(event: ConnectionEvent) -> (r: Vec<Effect>)
    ensures
        r.deep_view() == connection_effects(event@),
{
    let mut r: Vec<Effect> = Vec::new();
    let ghost expected = connection_effects(event@);
    match event {
        ConnectionEvent::Connected => {
            r.push(
                Effect::Log(LogLevel::Info, "EventSub ready - listening for chat events".to_owned()),
            );
        },
        ConnectionEvent::ChannelBan(ban) => {
            r.push(Effect::Log(LogLevel::Warn, ban_report(&ban)));
        },
        ConnectionEvent::ChannelUnban { user_name, moderator_user_name } => {
            let mut parts: Vec<&str> = Vec::new();
            parts.push(user_name.as_str());
            parts.push(" was unbanned by ");
            parts.push(moderator_user_name.as_str());
            assert(texts_of(parts@) =~= seq![
                user_name@,
                " was unbanned by "@,
                moderator_user_name@,
            ]);
            r.push(Effect::Log(LogLevel::Info, concat_strs(&parts)));
        },
        ConnectionEvent::TokensRefreshed(auth_token, refresh_token) => {
            r.push(Effect::SaveTokens { auth_token, refresh_token });
        },
        ConnectionEvent::Disconnected => {
            r.push(Effect::ConnectionFailure("Disconnected".to_owned()));
            r.push(Effect::Log(LogLevel::Error, "Disconnected from Twitch".to_owned()));
            r.push(Effect::Stop);
        },
        ConnectionEvent::Warning(text) => {
            r.push(Effect::Log(LogLevel::Warn, text));
        },
        ConnectionEvent::Error(text) => {
            r.push(Effect::Log(LogLevel::Error, prefixed("Twitch error: ", text.as_str())));
        },
        ConnectionEvent::Other => {},
    }
    assert(r.deep_view() =~= expected);
    r
}

/// What follows from the attempt to connect, where `error` is what went
/// wrong, if anything did.
pub fn effects_of_connect(error: Option<&str>) -> (r: Vec<Effect>)
    ensures
        r.deep_view() == connect_effects(
            match error {
                Some(e) => Some(e@),
                None => None,
            },
        ),
{
    let mut r: Vec<Effect> = Vec::new();
    match error {
        None => {
            r.push(Effect::ConnectionSuccess("Connected".to_owned()));
            r.push(
                Effect::Log(LogLevel::Info, "Successfully connected to Twitch chat".to_owned()),
            );
            assert(r.deep_view() =~= connect_effects(None));
        },
        Some(e) => {
            r.push(Effect::ConnectionFailure("Connection Failed".to_owned()));
            r.push(Effect::Log(LogLevel::Error, prefixed("Failed to connect: ", e)));
            r.push(Effect::Stop);
            assert(r.deep_view() =~= connect_effects(Some(e@)));
        },
    }
    r
}

/// The message to greet the chat with after connecting; `None` where no
/// message is configured or the configured one is blank.
pub fn welcome_to_send(welcome_message: Option<&str>) -> (r: Option<String>)
    ensures
        match welcome_message {
            Some(m) => if is_blank(m@) {
                r is None
            } else {
                r is Some && r->0@ == m@
            },
            None => r is None,
        },
{
    match welcome_message {
        Some(m) => if str_is_blank(m) {
            None
        } else {
            Some(m.to_owned())
        },
        None => None,
    }
}

/// The line that reports how sending the welcome message went, where
/// `error` is what went wrong, if anything did.
pub fn welcome_report(message: &str, error: Option<&str>) -> (r: Effect)
    ensures
        r@ == EffectView::Log(
            welcome_line(
                message@,
                match error {
                    Some(e) => Some(e@),
                    None => None,
                },
            ).0,
            welcome_line(
                message@,
                match error {
                    Some(e) => Some(e@),
                    None => None,
                },
            ).1,
        ),
{
    match error {
        None => Effect::Log(LogLevel::Info, prefixed("✓ Sent welcome message: ", message)),
        Some(e) => {
            if contains_text(e, "403") || contains_text(e, "Forbidden") {
                Effect::Log(
                    LogLevel::Error,
                    "❌ Cannot send welcome message - Missing OAuth scope 'user:write:chat'. Please re-authorize with write permissions.".to_owned(),
                )
            } else {
                Effect::Log(LogLevel::Error, prefixed("❌ Failed to send welcome message: ", e))
            }
        },
    }
}

} // verus!
