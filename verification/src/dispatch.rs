//! What the backend does with an event of the chat: whether a message asks
//! for speech, runs a command or is ordinary chat, and what follows from
//! each of the other events.
//!
//! Nothing here talks to the chat, the display or the audio device. Every
//! function gives back effects; the caller carries them out.

use vstd::prelude::*;
use crate::chat::Badge;
use crate::chat::BadgeView;
use crate::chat::ChatMessageEvent;
use crate::chat::ChatMessageEventView;
use crate::commands::executor::CommandContext;
use crate::commands::executor::CommandContextView;
use crate::commands::executor::CommandResult;
use crate::commands::executor::CommandResultView;
use crate::commands::executor::after_execution;
use crate::commands::executor::decide;
use crate::commands::parser::CommandParser;
use crate::commands::parser::is_command;
use crate::commands::parser::parsed;
use crate::commands::registry::CommandAction;
use crate::commands::registry::CommandActionView;
use crate::commands::registry::CommandEntryView;
use crate::commands::registry::CommandRegistry;
use crate::commands::registry::lookup;
use crate::config::FeatureConfig;
use crate::roles::permitted;
use crate::sfx::Format;
use crate::sfx::sound_file_name;
use crate::strings::ascii_lower;
use crate::strings::concat;
use crate::strings::concat_strs;
use crate::strings::find_char;
use crate::strings::index_of;
use crate::strings::lowercase_of;
use crate::strings::texts_of;
use crate::strings::to_lowercase;
use crate::text::chars_of;
use crate::text::string_of;
use crate::text::trim;
use crate::text::trimmed;
use crate::tts::languages::LanguageConfig;
use crate::tts::languages::LanguageView;
use crate::tts::languages::find_language;
use crate::tts::languages::has_language;
use crate::tts::queue::TTSRequest;
use crate::tts::queue::TTSRequestView;

verus! {

/// How much a line of the log matters.
#[derive(Clone, Copy, Debug, PartialEq, Eq, Structural)]
pub enum LogLevel {
    Info,
    Warn,
    Error,
}

impl LogLevel {
    /// The colour of a line of this level on the display: red, green and
    /// blue.
    pub fn color(&self) -> (r: (u8, u8, u8))
        ensures
            r == match *self {
                LogLevel::Info => (0u8, 255u8, 0u8),
                LogLevel::Warn => (255u8, 255u8, 0u8),
                LogLevel::Error => (255u8, 50u8, 0u8),
            },
    {
        match self {
            LogLevel::Info => (0, 255, 0),
            LogLevel::Warn => (255, 255, 0),
            LogLevel::Error => (255, 50, 0),
        }
    }
}

/// Something for the caller to carry out.
#[derive(Debug, PartialEq, Eq)]
pub enum Effect {
    /// Show a line in the log of the display.
    Log(LogLevel, String),
    /// Tell the display that the chat is connected.
    ConnectionSuccess(String),
    /// Tell the display that the chat is not connected.
    ConnectionFailure(String),
    /// Send a message to the chat.
    SendMessage(String),
    /// Reply to the message with the id `message_id`.
    Reply { message_id: String, text: String },
    /// Synthesize the request and put it into the playback queue.
    Speak(TTSRequest),
    /// Play the sound file `file_name` of the sound directory, if it
    /// exists and the sender may play sounds.
    SoundFallback { file_name: String },
    /// Store the new tokens of the account.
    SaveTokens { auth_token: String, refresh_token: String },
    /// Stop listening to the chat.
    Stop,
}

/// The mathematical value of an [`Effect`].
pub enum EffectView {
    Log(LogLevel, Seq<char>),
    ConnectionSuccess(Seq<char>),
    ConnectionFailure(Seq<char>),
    SendMessage(Seq<char>),
    Reply { message_id: Seq<char>, text: Seq<char> },
    Speak(TTSRequestView),
    SoundFallback { file_name: Seq<char> },
    SaveTokens { auth_token: Seq<char>, refresh_token: Seq<char> },
    Stop,
}

impl View for Effect {
    type V = EffectView;

    open spec fn view(&self) -> EffectView {
        match self {
            Effect::Log(level, text) => EffectView::Log(*level, text@),
            Effect::ConnectionSuccess(text) => EffectView::ConnectionSuccess(text@),
            Effect::ConnectionFailure(text) => EffectView::ConnectionFailure(text@),
            Effect::SendMessage(text) => EffectView::SendMessage(text@),
            Effect::Reply { message_id, text } => EffectView::Reply {
                message_id: message_id@,
                text: text@,
            },
            Effect::Speak(request) => EffectView::Speak(request@),
            Effect::SoundFallback { file_name } => EffectView::SoundFallback {
                file_name: file_name@,
            },
            Effect::SaveTokens { auth_token, refresh_token } => EffectView::SaveTokens {
                auth_token: auth_token@,
                refresh_token: refresh_token@,
            },
            Effect::Stop => EffectView::Stop,
        }
    }
}

impl DeepView for Effect {
    type V = EffectView;

    open spec fn deep_view(&self) -> EffectView {
        self@
    }
}

/// A request for speech as a chat message words it: a language code and
/// a text.
#[derive(Debug, PartialEq, Eq)]
pub struct TtsCommand {
    pub language: String,
    pub text: String,
}

/// The mathematical value of a [`TtsCommand`].
pub struct TtsCommandView {
    pub language: Seq<char>,
    pub text: Seq<char>,
}

impl View for TtsCommand {
    type V = TtsCommandView;

    open spec fn view(&self) -> TtsCommandView {
        TtsCommandView { language: self.language@, text: self.text@ }
    }
}

/// The request for speech in a message that is trimmed and in lower case:
/// the language code between the exclamation mark and the first space, and
/// the text after that space. `None` where the message does not start with
/// an exclamation mark or holds no space.
pub open spec fn tts_command_of(normalized: Seq<char>) -> Option<TtsCommandView> {
    let space = index_of(normalized, ' ');
    if normalized.len() > 1 && normalized[0] == '!' && space < normalized.len() {
        Some(
            TtsCommandView {
                language: normalized.subrange(1, space),
                text: normalized.skip(space + 1),
            },
        )
    } else {
        None
    }
}

/// What a chat message asks for.
#[derive(Debug, PartialEq, Eq)]
pub enum ChatDecision {
    /// The text is to be spoken.
    Speak(TTSRequest),
    /// The message names a language, but the language or text to speech
    /// is switched off.
    TtsUnavailable,
    /// The message names a language, but the sender may not use text to
    /// speech.
    TtsDenied,
    /// The message is a command.
    Command(CommandContext),
    /// The message is ordinary chat.
    Plain,
}

/// The mathematical value of a [`ChatDecision`].
pub enum ChatDecisionView {
    Speak(TTSRequestView),
    TtsUnavailable,
    TtsDenied,
    Command(CommandContextView),
    Plain,
}

impl View for ChatDecision {
    type V = ChatDecisionView;

    open spec fn view(&self) -> ChatDecisionView {
        match self {
            ChatDecision::Speak(request) => ChatDecisionView::Speak(request@),
            ChatDecision::TtsUnavailable => ChatDecisionView::TtsUnavailable,
            ChatDecision::TtsDenied => ChatDecisionView::TtsDenied,
            ChatDecision::Command(context) => ChatDecisionView::Command(context@),
            ChatDecision::Plain => ChatDecisionView::Plain,
        }
    }
}

/// The decision for a request to speak `text` in the language `code`,
/// which is known. Who the sender is plays no part beyond the badges: the
/// request of an ignored user is accepted like any other, and dropped by
/// the scheduler when its turn to play comes.
pub open spec fn tts_decision(
    code: Seq<char>,
    text: Seq<char>,
    message: ChatMessageEventView,
    languages: Seq<LanguageView>,
    tts: FeatureConfig,
    now: u64,
) -> ChatDecisionView {
    if !(find_language(languages, code)->0.enabled && tts.enabled) {
        ChatDecisionView::TtsUnavailable
    } else if !permitted(message.badges, tts.permited_roles) {
        ChatDecisionView::TtsDenied
    } else {
        ChatDecisionView::Speak(
            TTSRequestView {
                id: message.message_id,
                username: message.chatter_user_login,
                language: code,
                text,
                timestamp: now,
            },
        )
    }
}

/// What `message` asks for, where `normalized` is its text, trimmed and in
/// lower case. A message that names a known language is a request for
/// speech and never a command.
pub open spec fn chat_decision(
    normalized: Seq<char>,
    message: ChatMessageEventView,
    languages: Seq<LanguageView>,
    tts: FeatureConfig,
    prefix: Seq<char>,
    now: u64,
) -> ChatDecisionView {
    if tts_command_of(normalized) is Some && has_language(
        languages,
        tts_command_of(normalized)->0.language,
    ) {
        tts_decision(
            tts_command_of(normalized)->0.language,
            tts_command_of(normalized)->0.text,
            message,
            languages,
            tts,
            now,
        )
    } else if is_command(message.text, prefix) {
        ChatDecisionView::Command(parsed(message, prefix, now))
    } else {
        ChatDecisionView::Plain
    }
}

/// A request for speech in a known, enabled language is accepted whenever
/// text to speech is on and the badges of the sender admit them, whoever the
/// sender is: the request takes the id and the login of the message.
pub proof fn lemma_permitted_request_is_spoken(
    code: Seq<char>,
    text: Seq<char>,
    message: ChatMessageEventView,
    languages: Seq<LanguageView>,
    tts: FeatureConfig,
    now: u64,
)
    requires
        has_language(languages, code),
        find_language(languages, code)->0.enabled,
        tts.enabled,
        permitted(message.badges, tts.permited_roles),
    ensures
        tts_decision(code, text, message, languages, tts, now) == ChatDecisionView::Speak(
            TTSRequestView {
                id: message.message_id,
                username: message.chatter_user_login,
                language: code,
                text,
                timestamp: now,
            },
        ),
{
}

/// Whether the message is kept in the record of the chat: every message
/// but a request for speech that is denied.
pub open spec fn is_recorded(decision: ChatDecisionView) -> bool {
    !(decision is TtsDenied)
}

/// The line that says that a user tried a command without permission.
pub open spec fn permission_warning(username: Seq<char>, command: Seq<char>) -> Seq<char> {
    concat(
        seq![
            "User "@,
            username,
            " tried to use command !"@,
            command,
            " without permission"@,
        ],
    )
}

/// What follows from the result of a command.
pub open spec fn command_effects(
    result: CommandResultView,
    context: CommandContextView,
    format: Format,
) -> Seq<EffectView> {
    match result {
        CommandResultView::Success(CommandActionView::Send(text)) => seq![
            EffectView::SendMessage(text),
        ],
        CommandResultView::Success(CommandActionView::Reply(text)) => seq![
            EffectView::Reply { message_id: context.message.message_id, text },
        ],
        CommandResultView::NotFound => seq![
            EffectView::SoundFallback { file_name: sound_file_name(context.command_name, format) },
        ],
        CommandResultView::PermissionDenied => seq![
            EffectView::Log(
                LogLevel::Warn,
                permission_warning(context.message.chatter_user_login, context.command_name),
            ),
        ],
        CommandResultView::OnCooldown(_) => Seq::empty(),
    }
}

/// What follows from a chat message, where `normalized` is its text,
/// trimmed and in lower case.
pub open spec fn chat_effects(
    normalized: Seq<char>,
    message: ChatMessageEventView,
    registry: Seq<CommandEntryView>,
    languages: Seq<LanguageView>,
    tts: FeatureConfig,
    prefix: Seq<char>,
    format: Format,
    now: u64,
) -> Seq<EffectView> {
    match chat_decision(normalized, message, languages, tts, prefix, now) {
        ChatDecisionView::Speak(request) => seq![EffectView::Speak(request)],
        ChatDecisionView::Command(context) => command_effects(
            decide(lookup(registry, ascii_lower(context.command_name)), message.badges, now),
            context,
            format,
        ),
        _ => Seq::empty(),
    }
}

/// The registry after a chat message: a command that ran has `now` as the
/// time of its last run; nothing else changes.
pub open spec fn registry_after_chat(
    normalized: Seq<char>,
    message: ChatMessageEventView,
    registry: Seq<CommandEntryView>,
    languages: Seq<LanguageView>,
    tts: FeatureConfig,
    prefix: Seq<char>,
    now: u64,
) -> Seq<CommandEntryView> {
    match chat_decision(normalized, message, languages, tts, prefix, now) {
        ChatDecisionView::Command(context) => after_execution(
            registry,
            ascii_lower(context.command_name),
            message.badges,
            now,
        ),
        _ => registry,
    }
}

/// Whether a sound may be played for a sender with `badges`: the file
/// exists, the sender is admitted, and sound effects are on.
pub open spec fn may_play(exists: bool, sfx: FeatureConfig, badges: Seq<BadgeView>) -> bool {
    exists && permitted(badges, sfx.permited_roles) && sfx.enabled
}

/// The request for speech in a message that is trimmed and in lower case.
pub fn tts_command(normalized: &str) -> (r: Option<TtsCommand>)
    ensures
        r is Some == tts_command_of(normalized@) is Some,
        r matches Some(found) ==> Some(found@) == tts_command_of(normalized@),
{
    let chars = chars_of(normalized);
    let space = find_char(&chars, ' ');
    if chars.len() > 1 && chars[0] == '!' && space < chars.len() {
        let language = string_of(&chars, 1, space);
        let text = string_of(&chars, space + 1, chars.len());
        assert(chars@.subrange(space + 1, chars@.len() as int) =~= chars@.skip(space + 1));
        Some(TtsCommand { language, text })
    } else {
        None
    }
}

/// What `message` asks for, where `normalized` is its text, trimmed and in
/// lower case.
pub fn decide_normalized_message(
    normalized: &str,
    message: ChatMessageEvent,
    languages: &LanguageConfig,
    tts: &FeatureConfig,
    parser: &CommandParser,
    now: u64,
) -> (r: ChatDecision)
    ensures
        r@ == chat_decision(
            normalized@,
            message@,
            languages@,
            *tts,
            parser@,
            now,
        ),
{
    match tts_command(normalized) {
        Some(TtsCommand { language: code, text }) => {
            match languages.get_language(code.as_str()) {
                Some(language) => {
                    if !(language.enabled && tts.enabled) {
                        return ChatDecision::TtsUnavailable;
                    }
                    if !tts.permited_roles.permits(&message.badges) {
                        return ChatDecision::TtsDenied;
                    }
                    return ChatDecision::Speak(
                        TTSRequest {
                            id: message.message_id.clone(),
                            username: message.chatter_user_login.clone(),
                            language: code,
                            text,
                            timestamp: now,
                        },
                    );
                },
                None => {},
            }
        },
        None => {},
    }
    match parser.parse(message, now) {
        Some(context) => ChatDecision::Command(context),
        None => ChatDecision::Plain,
    }
}

/// The text of a message as the check for speech reads it: trimmed, then
/// in lower case.
pub fn normalize_message(text: &str) -> (r: String)
    ensures
        r@ == lowercase_of(trimmed(text@)),
{
    let chars = chars_of(text);
    let trimmed = trim(&chars);
    to_lowercase(trimmed.as_str())
}

/// What `message` asks for.
pub fn decide_chat_message(
    message: ChatMessageEvent,
    languages: &LanguageConfig,
    tts: &FeatureConfig,
    parser: &CommandParser,
    now: u64,
) -> (r: ChatDecision)
    ensures
        r@ == chat_decision(
            lowercase_of(trimmed(message@.text)),
            message@,
            languages@,
            *tts,
            parser@,
            now,
        ),
{
    let normalized = normalize_message(message.text.as_str());
    decide_normalized_message(normalized.as_str(), message, languages, tts, parser, now)
}

/// What follows from the result of a command.
pub fn effects_of_result(result: CommandResult, context: &CommandContext, format: Format) -> (r:
    Vec<Effect>)
    ensures
        r.deep_view() == command_effects(result@, context@, format),
{
    let mut r: Vec<Effect> = Vec::new();
    match result {
        CommandResult::Success(CommandAction::Send(text)) => {
            let ghost t = text@;
            r.push(Effect::SendMessage(text));
            assert(r.deep_view() =~= seq![EffectView::SendMessage(t)]);
        },
        CommandResult::Success(CommandAction::Reply(text)) => {
            let ghost t = text@;
            r.push(Effect::Reply { message_id: context.message.message_id.clone(), text });
            assert(r.deep_view() =~= seq![
                EffectView::Reply { message_id: context@.message.message_id, text: t },
            ]);
        },
        CommandResult::NotFound => {
            let file_name = format.file_name(context.command_name.as_str());
            r.push(Effect::SoundFallback { file_name });
            assert(r.deep_view() =~= seq![
                EffectView::SoundFallback {
                    file_name: sound_file_name(context@.command_name, format),
                },
            ]);
        },
        CommandResult::PermissionDenied => {
            let mut parts: Vec<&str> = Vec::new();
            parts.push("User ");
            parts.push(context.username());
            parts.push(" tried to use command !");
            parts.push(context.command_name.as_str());
            parts.push(" without permission");
            assert(texts_of(parts@) =~= seq![
                "User "@,
                context@.message.chatter_user_login,
                " tried to use command !"@,
                context@.command_name,
                " without permission"@,
            ]);
            let line = concat_strs(&parts);
            r.push(Effect::Log(LogLevel::Warn, line));
            assert(r.deep_view() =~= seq![
                EffectView::Log(
                    LogLevel::Warn,
                    permission_warning(context@.message.chatter_user_login, context@.command_name),
                ),
            ]);
        },
        CommandResult::OnCooldown(_) => {
            assert(r.deep_view() =~= Seq::<EffectView>::empty());
        },
    }
    r
}

/// Handles a chat message whose text, trimmed and in lower case, is
/// `normalized`: decides what it asks for, runs the command if it is one,
/// and gives the effects. The flag tells whether the message is kept in
/// the record of the chat.
pub fn handle_normalized_message(
    normalized: &str,
    message: ChatMessageEvent,
    registry: &mut CommandRegistry,
    languages: &LanguageConfig,
    tts: &FeatureConfig,
    parser: &CommandParser,
    format: Format,
    now: u64,
) -> (r: (Vec<Effect>, bool))
    ensures
        r.0.deep_view() == chat_effects(
            normalized@,
            message@,
            old(registry)@,
            languages@,
            *tts,
            parser@,
            format,
            now,
        ),
        r.1 == is_recorded(
            chat_decision(normalized@, message@, languages@, *tts, parser@, now),
        ),
        final(registry)@ == registry_after_chat(
            normalized@,
            message@,
            old(registry)@,
            languages@,
            *tts,
            parser@,
            now,
        ),
{
    let decision = decide_normalized_message(
        normalized,
        message,
        languages,
        tts,
        parser,
        now,
    );
    let mut effects: Vec<Effect> = Vec::new();
    match decision {
        ChatDecision::Speak(request) => {
            let ghost v = request@;
            effects.push(Effect::Speak(request));
            assert(effects.deep_view() =~= seq![EffectView::Speak(v)]);
            (effects, true)
        },
        ChatDecision::Command(context) => {
            let result = registry.execute(
                context.command_name.as_str(),
                context.badges(),
                context.now,
            );
            (effects_of_result(result, &context, format), true)
        },
        ChatDecision::TtsUnavailable => {
            assert(effects.deep_view() =~= Seq::<EffectView>::empty());
            (effects, true)
        },
        ChatDecision::Plain => {
            assert(effects.deep_view() =~= Seq::<EffectView>::empty());
            (effects, true)
        },
        ChatDecision::TtsDenied => {
            assert(effects.deep_view() =~= Seq::<EffectView>::empty());
            (effects, false)
        },
    }
}

/// Handles a chat message: decides what it asks for, runs the command if
/// it is one, and gives the effects. The flag tells whether the message
/// is kept in the record of the chat.
pub fn handle_chat_message(
    message: ChatMessageEvent,
    registry: &mut CommandRegistry,
    languages: &LanguageConfig,
    tts: &FeatureConfig,
    parser: &CommandParser,
    format: Format,
    now: u64,
) -> (r: (Vec<Effect>, bool))
    ensures
        r.0.deep_view() == chat_effects(
            lowercase_of(trimmed(message@.text)),
            message@,
            old(registry)@,
            languages@,
            *tts,
            parser@,
            format,
            now,
        ),
        r.1 == is_recorded(
            chat_decision(
                lowercase_of(trimmed(message@.text)),
                message@,
                languages@,
                *tts,
                parser@,
                now,
            ),
        ),
        final(registry)@ == registry_after_chat(
            lowercase_of(trimmed(message@.text)),
            message@,
            old(registry)@,
            languages@,
            *tts,
            parser@,
            now,
        ),
{
    let normalized = normalize_message(message.text.as_str());
    handle_normalized_message(
        normalized.as_str(),
        message,
        registry,
        languages,
        tts,
        parser,
        format,
        now,
    )
}

/// Whether a sound may be played for a sender with these badges, where
/// `exists` tells whether the sound file is there.
pub fn may_play_sound(exists: bool, sfx: &FeatureConfig, badges: &Vec<Badge>) -> (r:
    bool)
    ensures
        r == may_play(exists, *sfx, badges.deep_view()),
{
    exists && sfx.permited_roles.permits(badges) && sfx.enabled
}

} // verus!
