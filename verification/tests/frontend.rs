use yambot::commands::registry::{CommandAction, CommandDefinition, CommandRegistry};
use yambot::config::ChatbotConfig;
use yambot::dispatch::LogLevel;
use yambot::frontend::{
    effects_of_language_save, handle_frontend_request, BackendEffect, ConfigPart, FrontendRequest,
};
use yambot::player::TTSQueueItemUI;
use yambot::roles::PermitedRoles;
use yambot::tts::languages::{Language, LanguageConfig};
use yambot::tts::queue::{TTSAudioChunk, TTSQueue, TTSQueueItem, TTSRequest};

struct Backend {
    chatbot: ChatbotConfig,
    registry: CommandRegistry,
    languages: LanguageConfig,
    queue: TTSQueue,
}

fn backend(welcome: &str) -> Backend {
    Backend {
        chatbot: ChatbotConfig {
            channel_name: "channel".to_string(),
            auth_token: "token".to_string(),
            refresh_token: "refresh".to_string(),
            welcome_message: welcome.to_string(),
        },
        registry: CommandRegistry::new(),
        languages: LanguageConfig::new(),
        queue: TTSQueue::new(),
    }
}

fn handle(b: &mut Backend, request: FrontendRequest, active: bool) -> Vec<BackendEffect> {
    handle_frontend_request(request, active, &b.chatbot, &mut b.registry, &mut b.languages, &mut b.queue)
}

fn info(text: &str) -> BackendEffect {
    BackendEffect::Log(LogLevel::Info, text.to_string())
}

fn command(trigger: &str) -> CommandDefinition {
    CommandDefinition::new(
        trigger,
        CommandAction::Send("text".to_string()),
        PermitedRoles::new(true, true, true),
        0,
    )
}

fn item(id: &str) -> TTSQueueItem {
    TTSQueueItem {
        request: TTSRequest {
            id: id.to_string(),
            username: "alice".to_string(),
            language: "en".to_string(),
            text: "hello".to_string(),
            timestamp: 0,
        },
        audio_chunks: vec![TTSAudioChunk { audio_data: vec![1] }],
    }
}

fn shown(id: &str) -> TTSQueueItemUI {
    TTSQueueItemUI {
        id: id.to_string(),
        username: "alice".to_string(),
        text: "hello".to_string(),
        language: "en".to_string(),
    }
}

#[test]
fn language_is_enabled_and_saved() {
    let mut b = backend("");
    b.languages.disable_language("en");
    let effects = handle(&mut b, FrontendRequest::AddTTSLang("en".to_string()), false);
    assert_eq!(effects, vec![BackendEffect::SaveLanguages { code: "en".to_string(), enabled: true }]);
    assert!(b.languages.is_enabled("en"));
}

#[test]
fn language_is_disabled_and_saved() {
    let mut b = backend("");
    let effects = handle(&mut b, FrontendRequest::RemoveTTSLang("en".to_string()), false);
    assert_eq!(effects, vec![BackendEffect::SaveLanguages { code: "en".to_string(), enabled: false }]);
    assert!(!b.languages.is_enabled("en"));
}

#[test]
fn saved_languages_are_shown() {
    let mut languages = LanguageConfig::empty();
    languages.insert(Language::new("b", "Banana"));
    languages.insert(Language::new("a", "Apple"));
    assert_eq!(
        effects_of_language_save("a", true, None, &languages),
        vec![
            info("Language a enabled"),
            BackendEffect::TTSLangListUpdated(vec![Language::new("a", "Apple"), Language::new("b", "Banana")]),
        ]
    );
    assert_eq!(
        effects_of_language_save("b", false, None, &languages)[0],
        info("Language b disabled")
    );
}

#[test]
fn failed_save_of_languages_is_logged() {
    assert_eq!(
        effects_of_language_save("a", true, Some("disk full"), &LanguageConfig::new()),
        vec![BackendEffect::Log(
            LogLevel::Error,
            "Failed to save language config: disk full".to_string()
        )]
    );
}

#[test]
fn settings_are_saved_by_part() {
    let mut b = backend("");
    assert_eq!(
        handle(&mut b, FrontendRequest::UpdateConfig(ConfigPart::Tts), false),
        vec![BackendEffect::SaveConfig(ConfigPart::Tts), info("TTS config updated")]
    );
    assert_eq!(
        handle(&mut b, FrontendRequest::UpdateConfig(ConfigPart::Sfx), false),
        vec![BackendEffect::SaveConfig(ConfigPart::Sfx), info("SFX config updated")]
    );
    assert_eq!(
        handle(&mut b, FrontendRequest::UpdateConfig(ConfigPart::Chatbot), false),
        vec![BackendEffect::SaveConfig(ConfigPart::Chatbot), info("Chatbot config updated")]
    );
}

#[test]
fn connect_starts_a_session() {
    let mut b = backend("hello chat");
    assert_eq!(
        handle(&mut b, FrontendRequest::ConnectToChat, false),
        vec![
            BackendEffect::StartSession { welcome_message: Some("hello chat".to_string()) },
            info("Connecting to Twitch..."),
        ]
    );
}

#[test]
fn connect_ends_the_running_session_first() {
    let mut b = backend("  ");
    assert_eq!(
        handle(&mut b, FrontendRequest::ConnectToChat, true),
        vec![
            BackendEffect::AbortSession,
            info("Disconnecting previous session..."),
            BackendEffect::StartSession { welcome_message: None },
            info("Connecting to Twitch..."),
        ]
    );
}

#[test]
fn disconnect_ends_the_session() {
    let mut b = backend("");
    assert_eq!(
        handle(&mut b, FrontendRequest::DisconnectFromChat, true),
        vec![BackendEffect::AbortSession, info("Disconnected from Twitch")]
    );
    assert_eq!(
        handle(&mut b, FrontendRequest::DisconnectFromChat, false),
        vec![BackendEffect::Log(LogLevel::Warn, "Not connected to Twitch".to_string())]
    );
}

#[test]
fn commands_are_added_updated_and_removed() {
    let mut b = backend("");
    assert_eq!(
        handle(&mut b, FrontendRequest::AddCommand(command("Hello")), false),
        vec![BackendEffect::SaveCommands, info("Command added"), BackendEffect::CommandsUpdated]
    );
    assert!(b.registry.contains("hello"));

    let mut changed = command("hello");
    changed.cooldown = 30;
    assert_eq!(
        handle(&mut b, FrontendRequest::UpdateCommand(changed), false),
        vec![BackendEffect::SaveCommands, info("Command updated"), BackendEffect::CommandsUpdated]
    );
    assert_eq!(b.registry.len(), 1);
    assert_eq!(b.registry.get("hello").unwrap().cooldown, 30);

    assert_eq!(
        handle(&mut b, FrontendRequest::RemoveCommand("hello".to_string()), false),
        vec![
            BackendEffect::SaveCommands,
            info("Command 'hello' removed"),
            BackendEffect::CommandsUpdated,
        ]
    );
    assert!(b.registry.is_empty());
}

#[test]
fn command_is_switched() {
    let mut b = backend("");
    b.registry.register(command("hello"));
    assert_eq!(
        handle(&mut b, FrontendRequest::ToggleCommand("hello".to_string(), false), false),
        vec![BackendEffect::SaveCommands, info("Command 'hello' disabled")]
    );
    assert!(!b.registry.get("hello").unwrap().enabled);
    assert_eq!(
        handle(&mut b, FrontendRequest::ToggleCommand("hello".to_string(), true), false),
        vec![BackendEffect::SaveCommands, info("Command 'hello' enabled")]
    );
    assert_eq!(
        handle(&mut b, FrontendRequest::ToggleCommand("missing".to_string(), true), false),
        Vec::new()
    );
}

#[test]
fn queue_is_shown() {
    let mut b = backend("");
    b.queue.add(item("A"));
    b.queue.set_currently_playing(Some(item("P")));
    assert_eq!(
        handle(&mut b, FrontendRequest::GetTTSQueue, false),
        vec![BackendEffect::TTSQueueUpdated(vec![shown("P"), shown("A")])]
    );
}

#[test]
fn skip_of_a_message_needs_it_to_be_playing() {
    let mut b = backend("");
    b.queue.add(item("A"));
    b.queue.set_currently_playing(Some(item("P")));
    assert_eq!(
        handle(&mut b, FrontendRequest::SkipTTSMessage("A".to_string()), false),
        vec![BackendEffect::TTSQueueUpdated(vec![shown("P"), shown("A")])]
    );
    assert!(!b.queue.is_skip_requested());
    handle(&mut b, FrontendRequest::SkipTTSMessage("P".to_string()), false);
    assert!(b.queue.is_skip_requested());
    assert_eq!(b.queue.len(), 1);
}

#[test]
fn skip_of_the_playing_item() {
    let mut b = backend("");
    handle(&mut b, FrontendRequest::SkipCurrentTTS, false);
    assert!(!b.queue.is_skip_requested());
    b.queue.set_currently_playing(Some(item("P")));
    assert_eq!(
        handle(&mut b, FrontendRequest::SkipCurrentTTS, false),
        vec![BackendEffect::TTSQueueUpdated(vec![shown("P")])]
    );
    assert!(b.queue.is_skip_requested());
}
