//! What the backend does with a request of the display: changes to the
//! languages, the commands and the playback queue, and the chat session.
//!
//! The changes are made here; reading and writing files, and starting and
//! ending the chat session, are effects for the caller to carry out.

use vstd::prelude::*;
use crate::commands::registry::CommandDefinition;
use crate::commands::registry::CommandDefinitionView;
use crate::commands::registry::CommandEntryView;
use crate::commands::registry::CommandRegistry;
use crate::commands::registry::entry_index;
use crate::commands::registry::has_key;
use crate::commands::registry::upsert;
use crate::commands::registry::with_trigger;
use crate::commands::registry::without;
use crate::config::ChatbotConfig;
use crate::config::ChatbotConfigView;
use crate::dispatch::LogLevel;
use crate::player::TTSQueueItemUI;
use crate::player::TTSQueueItemUIView;
use crate::player::display;
use crate::player::display_of;
use crate::strings::ascii_lower;
use crate::strings::concat;
use crate::strings::concat_strs;
use crate::strings::texts_of;
use crate::text::is_blank;
use crate::tts::languages::Language;
use crate::tts::languages::LanguageConfig;
use crate::tts::languages::LanguageView;
use crate::tts::languages::sorted_languages;
use crate::tts::languages::with_enabled;
use crate::tts::queue::TTSQueue;
use crate::tts::queue::TTSQueueView;

verus! {

/// A part of the stored settings.
#[derive(Clone, Copy, Debug, PartialEq, Eq, Structural)]
pub enum ConfigPart {
    Chatbot,
    Sfx,
    Tts,
}

/// A request of the display.
#[derive(Debug, PartialEq, Eq)]
pub enum FrontendRequest {
    /// Enable a language.
    AddTTSLang(String),
    /// Disable a language.
    RemoveTTSLang(String),
    /// Store new settings for one part; the settings themselves stay with
    /// the caller.
    UpdateConfig(ConfigPart),
    /// Connect to the chat.
    ConnectToChat,
    /// Leave the chat.
    DisconnectFromChat,
    /// Add a command.
    AddCommand(CommandDefinition),
    /// Remove the command with this trigger.
    RemoveCommand(String),
    /// Replace a command.
    UpdateCommand(CommandDefinition),
    /// Switch the command with this trigger on or off.
    ToggleCommand(String, bool),
    /// Show the playback queue.
    GetTTSQueue,
    /// Skip the item with this request id, if it is playing.
    SkipTTSMessage(String),
    /// Skip the item that is playing.
    SkipCurrentTTS,
}

/// The mathematical value of a [`FrontendRequest`].
pub enum FrontendRequestView {
    AddTTSLang(Seq<char>),
    RemoveTTSLang(Seq<char>),
    UpdateConfig(ConfigPart),
    ConnectToChat,
    DisconnectFromChat,
    AddCommand(CommandDefinitionView),
    RemoveCommand(Seq<char>),
    UpdateCommand(CommandDefinitionView),
    ToggleCommand(Seq<char>, bool),
    GetTTSQueue,
    SkipTTSMessage(Seq<char>),
    SkipCurrentTTS,
}

impl View for FrontendRequest {
    type V = FrontendRequestView;

    open spec fn view(&self) -> FrontendRequestView {
        match self {
            FrontendRequest::AddTTSLang(code) => FrontendRequestView::AddTTSLang(code@),
            FrontendRequest::RemoveTTSLang(code) => FrontendRequestView::RemoveTTSLang(code@),
            FrontendRequest::UpdateConfig(part) => FrontendRequestView::UpdateConfig(*part),
            FrontendRequest::ConnectToChat => FrontendRequestView::ConnectToChat,
            FrontendRequest::DisconnectFromChat => FrontendRequestView::DisconnectFromChat,
            FrontendRequest::AddCommand(def) => FrontendRequestView::AddCommand(def@),
            FrontendRequest::RemoveCommand(trigger) => FrontendRequestView::RemoveCommand(trigger@),
            FrontendRequest::UpdateCommand(def) => FrontendRequestView::UpdateCommand(def@),
            FrontendRequest::ToggleCommand(trigger, enabled) => FrontendRequestView::ToggleCommand(
                trigger@,
                *enabled,
            ),
            FrontendRequest::GetTTSQueue => FrontendRequestView::GetTTSQueue,
            FrontendRequest::SkipTTSMessage(id) => FrontendRequestView::SkipTTSMessage(id@),
            FrontendRequest::SkipCurrentTTS => FrontendRequestView::SkipCurrentTTS,
        }
    }
}

/// Something for the caller to carry out after a request of the display.
#[derive(Debug, PartialEq, Eq)]
pub enum BackendEffect {
    /// Show a line in the log of the display.
    Log(LogLevel, String),
    /// Write the language configuration to its file, and report how that
    /// went with [`effects_of_language_save`].
    SaveLanguages { code: String, enabled: bool },
    /// Replace this part of the stored settings by the settings that came
    /// with the request, and write the settings to their file.
    SaveConfig(ConfigPart),
    /// Write the commands to their file.
    SaveCommands,
    /// Tell the display that the commands have changed.
    CommandsUpdated,
    /// Show the playback queue.
    TTSQueueUpdated(Vec<TTSQueueItemUI>),
    /// Show the languages.
    TTSLangListUpdated(Vec<Language>),
    /// End the chat session.
    AbortSession,
    /// Start a chat session that greets the chat with this message.
    StartSession { welcome_message: Option<String> },
}

/// The mathematical value of a [`BackendEffect`].
pub enum BackendEffectView {
    Log(LogLevel, Seq<char>),
    SaveLanguages { code: Seq<char>, enabled: bool },
    SaveConfig(ConfigPart),
    SaveCommands,
    CommandsUpdated,
    TTSQueueUpdated(Seq<TTSQueueItemUIView>),
    TTSLangListUpdated(Seq<LanguageView>),
    AbortSession,
    StartSession { welcome_message: Option<Seq<char>> },
}

impl View for BackendEffect {
    type V = BackendEffectView;

    open spec fn view(&self) -> BackendEffectView {
        match self {
            BackendEffect::Log(level, text) => BackendEffectView::Log(*level, text@),
            BackendEffect::SaveLanguages { code, enabled } => BackendEffectView::SaveLanguages {
                code: code@,
                enabled: *enabled,
            },
            BackendEffect::SaveConfig(part) => BackendEffectView::SaveConfig(*part),
            BackendEffect::SaveCommands => BackendEffectView::SaveCommands,
            BackendEffect::CommandsUpdated => BackendEffectView::CommandsUpdated,
            BackendEffect::TTSQueueUpdated(items) => BackendEffectView::TTSQueueUpdated(
                items.deep_view(),
            ),
            BackendEffect::TTSLangListUpdated(languages) => BackendEffectView::TTSLangListUpdated(
                languages.deep_view(),
            ),
            BackendEffect::AbortSession => BackendEffectView::AbortSession,
            BackendEffect::StartSession { welcome_message } => BackendEffectView::StartSession {
                welcome_message: match welcome_message {
                    Some(m) => Some(m@),
                    None => None,
                },
            },
        }
    }
}

impl DeepView for BackendEffect {
    type V = BackendEffectView;

    open spec fn deep_view(&self) -> BackendEffectView {
        self@
    }
}

/// What the backend holds: the commands, the languages and the playback
/// queue.
pub struct BackendView {
    pub registry: Seq<CommandEntryView>,
    pub languages: Seq<LanguageView>,
    pub queue: TTSQueueView,
}

/// The line that says that the settings of a part were stored.
pub open spec fn config_line(part: ConfigPart) -> Seq<char> {
    match part {
        ConfigPart::Chatbot => "Chatbot config updated"@,
        ConfigPart::Sfx => "SFX config updated"@,
        ConfigPart::Tts => "TTS config updated"@,
    }
}

/// The line that says that a command was switched.
pub open spec fn toggle_line(trigger: Seq<char>, enabled: bool) -> Seq<char> {
    concat(
        seq![
            "Command '"@,
            trigger,
            "' "@,
            if enabled {
                "enabled"@
            } else {
                "disabled"@
            },
        ],
    )
}

/// The line that says that a command was removed.
pub open spec fn removed_line(trigger: Seq<char>) -> Seq<char> {
    concat(seq!["Command '"@, trigger, "' removed"@])
}

/// The line that says that a language was switched.
pub open spec fn language_line(code: Seq<char>, enabled: bool) -> Seq<char> {
    concat(
        seq![
            "Language "@,
            code,
            if enabled {
                " enabled"@
            } else {
                " disabled"@
            },
        ],
    )
}

/// Whether the item with the request id `id` is playing.
pub open spec fn is_playing(q: TTSQueueView, id: Seq<char>) -> bool {
    match q.current {
        Some(item) => item.request.id == id,
        None => false,
    }
}

/// The queue after a skip of the item that is playing: the skip is asked
/// for if an item is playing.
pub open spec fn skipped(q: TTSQueueView) -> TTSQueueView {
    TTSQueueView { skip: q.skip || q.current is Some, ..q }
}

/// What the backend holds after a request.
pub open spec fn backend_after(request: FrontendRequestView, b: BackendView) -> BackendView {
    match request {
        FrontendRequestView::AddTTSLang(code) => BackendView {
            languages: with_enabled(b.languages, code, true),
            ..b
        },
        FrontendRequestView::RemoveTTSLang(code) => BackendView {
            languages: with_enabled(b.languages, code, false),
            ..b
        },
        FrontendRequestView::AddCommand(def) => BackendView {
            registry: upsert(
                b.registry,
                ascii_lower(def.trigger),
                with_trigger(def, ascii_lower(def.trigger)),
            ),
            ..b
        },
        FrontendRequestView::UpdateCommand(def) => BackendView {
            registry: upsert(
                b.registry,
                ascii_lower(def.trigger),
                with_trigger(def, ascii_lower(def.trigger)),
            ),
            ..b
        },
        FrontendRequestView::RemoveCommand(trigger) => BackendView {
            registry: without(b.registry, ascii_lower(trigger)),
            ..b
        },
        FrontendRequestView::ToggleCommand(trigger, enabled) => if has_key(
            b.registry,
            ascii_lower(trigger),
        ) {
            let k = entry_index(b.registry, ascii_lower(trigger));
            BackendView {
                registry: b.registry.update(
                    k,
                    CommandEntryView {
                        key: b.registry[k].key,
                        definition: CommandDefinitionView { enabled, ..b.registry[k].definition },
                    },
                ),
                ..b
            }
        } else {
            b
        },
        FrontendRequestView::SkipTTSMessage(id) => if is_playing(b.queue, id) {
            BackendView { queue: skipped(b.queue), ..b }
        } else {
            b
        },
        FrontendRequestView::SkipCurrentTTS => BackendView { queue: skipped(b.queue), ..b },
        _ => b,
    }
}

/// What follows from a request, where `session_active` tells whether a
/// chat session runs and `chatbot` is the chat account.
pub open spec fn frontend_effects(
    request: FrontendRequestView,
    b: BackendView,
    session_active: bool,
    chatbot: ChatbotConfigView,
) -> Seq<BackendEffectView> {
    match request {
        FrontendRequestView::AddTTSLang(code) => seq![
            BackendEffectView::SaveLanguages { code, enabled: true },
        ],
        FrontendRequestView::RemoveTTSLang(code) => seq![
            BackendEffectView::SaveLanguages { code, enabled: false },
        ],
        FrontendRequestView::UpdateConfig(part) => seq![
            BackendEffectView::SaveConfig(part),
            BackendEffectView::Log(LogLevel::Info, config_line(part)),
        ],
        FrontendRequestView::ConnectToChat => {
            let start = seq![
                BackendEffectView::StartSession {
                    welcome_message: if is_blank(chatbot.welcome_message) {
                        None
                    } else {
                        Some(chatbot.welcome_message)
                    },
                },
                BackendEffectView::Log(LogLevel::Info, "Connecting to Twitch..."@),
            ];
            if session_active {
                seq![
                    BackendEffectView::AbortSession,
                    BackendEffectView::Log(LogLevel::Info, "Disconnecting previous session..."@),
                ] + start
            } else {
                start
            }
        },
        FrontendRequestView::DisconnectFromChat => if session_active {
            seq![
                BackendEffectView::AbortSession,
                BackendEffectView::Log(LogLevel::Info, "Disconnected from Twitch"@),
            ]
        } else {
            seq![BackendEffectView::Log(LogLevel::Warn, "Not connected to Twitch"@)]
        },
        FrontendRequestView::AddCommand(_) => seq![
            BackendEffectView::SaveCommands,
            BackendEffectView::Log(LogLevel::Info, "Command added"@),
            BackendEffectView::CommandsUpdated,
        ],
        FrontendRequestView::RemoveCommand(trigger) => seq![
            BackendEffectView::SaveCommands,
            BackendEffectView::Log(LogLevel::Info, removed_line(trigger)),
            BackendEffectView::CommandsUpdated,
        ],
        FrontendRequestView::UpdateCommand(_) => seq![
            BackendEffectView::SaveCommands,
            BackendEffectView::Log(LogLevel::Info, "Command updated"@),
            BackendEffectView::CommandsUpdated,
        ],
        FrontendRequestView::ToggleCommand(trigger, enabled) => if has_key(
            b.registry,
            ascii_lower(trigger),
        ) {
            seq![
                BackendEffectView::SaveCommands,
                BackendEffectView::Log(LogLevel::Info, toggle_line(trigger, enabled)),
            ]
        } else {
            Seq::empty()
        },
        FrontendRequestView::GetTTSQueue => seq![
            BackendEffectView::TTSQueueUpdated(display(b.queue)),
        ],
        FrontendRequestView::SkipTTSMessage(_) => seq![
            BackendEffectView::TTSQueueUpdated(display(backend_after(request, b).queue)),
        ],
        FrontendRequestView::SkipCurrentTTS => seq![
            BackendEffectView::TTSQueueUpdated(display(backend_after(request, b).queue)),
        ],
    }
}

/// What follows from writing the language configuration after the language
/// `code` was switched, where `error` is what went wrong, if anything did.
pub open spec fn language_save_effects(
    code: Seq<char>,
    enabled: bool,
    error: Option<Seq<char>>,
    languages: Seq<LanguageView>,
) -> Seq<BackendEffectView> {
    match error {
        Some(e) => seq![
            BackendEffectView::Log(
                LogLevel::Error,
                concat(seq!["Failed to save language config: "@, e]),
            ),
        ],
        None => seq![
            BackendEffectView::Log(LogLevel::Info, language_line(code, enabled)),
            BackendEffectView::TTSLangListUpdated(sorted_languages(languages)),
        ],
    }
}

/// A line of the log at the level `Info`.
fn info(text: &str) -> (r: BackendEffect)
    ensures
        r@ == BackendEffectView::Log(LogLevel::Info, text@),
{
    BackendEffect::Log(LogLevel::Info, text.to_owned())
}

/// Carries out a request of the display on the commands, the languages and
/// the playback queue, and gives the effects that are left to the caller.
pub fn handle_frontend_request(
    request: FrontendRequest,
    session_active: bool,
    chatbot: &ChatbotConfig,
    registry: &mut CommandRegistry,
    languages: &mut LanguageConfig,
    queue: &mut TTSQueue,
) -> (r: Vec<BackendEffect>)
    ensures
        (BackendView {
            registry: final(registry)@,
            languages: final(languages)@,
            queue: final(queue)@,
        }) == backend_after(
            request@,
            BackendView {
                registry: old(registry)@,
                languages: old(languages)@,
                queue: old(queue)@,
            },
        ),
        r.deep_view() == frontend_effects(
            request@,
            BackendView {
                registry: old(registry)@,
                languages: old(languages)@,
                queue: old(queue)@,
            },
            session_active,
            chatbot@,
        ),
{
    let ghost before = BackendView {
        registry: registry@,
        languages: languages@,
        queue: queue@,
    };
    let ghost expected = frontend_effects(request@, before, session_active, chatbot@);
    let mut r: Vec<BackendEffect> = Vec::new();
    match request {
        FrontendRequest::AddTTSLang(code) => {
            languages.enable_language(code.as_str());
            r.push(BackendEffect::SaveLanguages { code, enabled: true });
        },
        FrontendRequest::RemoveTTSLang(code) => {
            languages.disable_language(code.as_str());
            r.push(BackendEffect::SaveLanguages { code, enabled: false });
        },
        FrontendRequest::UpdateConfig(part) => {
            r.push(BackendEffect::SaveConfig(part));
            r.push(
                info(
                    match part {
                        ConfigPart::Chatbot => "Chatbot config updated",
                        ConfigPart::Sfx => "SFX config updated",
                        ConfigPart::Tts => "TTS config updated",
                    },
                ),
            );
        },
        FrontendRequest::ConnectToChat => {
            if session_active {
                r.push(BackendEffect::AbortSession);
                r.push(info("Disconnecting previous session..."));
            }
            r.push(BackendEffect::StartSession { welcome_message: chatbot.welcome() });
            r.push(info("Connecting to Twitch..."));
        },
        FrontendRequest::DisconnectFromChat => {
            if session_active {
                r.push(BackendEffect::AbortSession);
                r.push(info("Disconnected from Twitch"));
            } else {
                r.push(BackendEffect::Log(LogLevel::Warn, "Not connected to Twitch".to_owned()));
            }
        },
        FrontendRequest::AddCommand(def) => {
            registry.register(def);
            r.push(BackendEffect::SaveCommands);
            r.push(info("Command added"));
            r.push(BackendEffect::CommandsUpdated);
        },
        FrontendRequest::RemoveCommand(trigger) => {
            registry.unregister(trigger.as_str());
            let mut parts: Vec<&str> = Vec::new();
            parts.push("Command '");
            parts.push(trigger.as_str());
            parts.push("' removed");
            assert(texts_of(parts@) =~= seq!["Command '"@, trigger@, "' removed"@]);
            r.push(BackendEffect::SaveCommands);
            r.push(BackendEffect::Log(LogLevel::Info, concat_strs(&parts)));
            r.push(BackendEffect::CommandsUpdated);
        },
        FrontendRequest::UpdateCommand(def) => {
            registry.register(def);
            r.push(BackendEffect::SaveCommands);
            r.push(info("Command updated"));
            r.push(BackendEffect::CommandsUpdated);
        },
        FrontendRequest::ToggleCommand(trigger, enabled) => {
            if registry.toggle(trigger.as_str(), enabled) {
                let mut parts: Vec<&str> = Vec::new();
                parts.push("Command '");
                parts.push(trigger.as_str());
                parts.push("' ");
                parts.push(
                    if enabled {
                        "enabled"
                    } else {
                        "disabled"
                    },
                );
                assert(texts_of(parts@) =~= seq![
                    "Command '"@,
                    trigger@,
                    "' "@,
                    if enabled {
                        "enabled"@
                    } else {
                        "disabled"@
                    },
                ]);
                r.push(BackendEffect::SaveCommands);
                r.push(BackendEffect::Log(LogLevel::Info, concat_strs(&parts)));
            }
        },
        FrontendRequest::GetTTSQueue => {
            r.push(BackendEffect::TTSQueueUpdated(display_of(queue)));
        },
        FrontendRequest::SkipTTSMessage(id) => {
            if queue.is_playing(id.as_str()) {
                queue.skip_current();
            }
            r.push(BackendEffect::TTSQueueUpdated(display_of(queue)));
        },
        FrontendRequest::SkipCurrentTTS => {
            queue.skip_current();
            r.push(BackendEffect::TTSQueueUpdated(display_of(queue)));
        },
    }
    assert(r.deep_view() =~= expected);
    r
}

/// What follows from writing the language configuration after the language
/// `code` was switched, where `error` is what went wrong, if anything did.
pub fn effects_of_language_save(
    code: &str,
    enabled: bool,
    error: Option<&str>,
    languages: &LanguageConfig,
) -> (r: Vec<BackendEffect>)
    ensures
        r.deep_view() == language_save_effects(
            code@,
            enabled,
            match error {
                Some(e) => Some(e@),
                None => None,
            },
            languages@,
        ),
{
    let mut r: Vec<BackendEffect> = Vec::new();
    match error {
        Some(e) => {
            let mut parts: Vec<&str> = Vec::new();
            parts.push("Failed to save language config: ");
            parts.push(e);
            assert(texts_of(parts@) =~= seq!["Failed to save language config: "@, e@]);
            r.push(BackendEffect::Log(LogLevel::Error, concat_strs(&parts)));
            assert(r.deep_view() =~= language_save_effects(code@, enabled, Some(e@), languages@));
        },
        None => {
            let mut parts: Vec<&str> = Vec::new();
            parts.push("Language ");
            parts.push(code);
            parts.push(
                if enabled {
                    " enabled"
                } else {
                    " disabled"
                },
            );
            assert(texts_of(parts@) =~= seq![
                "Language "@,
                code@,
                if enabled {
                    " enabled"@
                } else {
                    " disabled"@
                },
            ]);
            r.push(BackendEffect::Log(LogLevel::Info, concat_strs(&parts)));
            r.push(BackendEffect::TTSLangListUpdated(languages.sorted_copy()));
            assert(r.deep_view() =~= language_save_effects(code@, enabled, None, languages@));
        },
    }
    r
}

} // verus!
