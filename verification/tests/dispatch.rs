use yambot::chat::{Badge, ChatMessage, ChatMessageEvent};
use yambot::commands::executor::CommandResult;
use yambot::commands::parser::CommandParser;
use yambot::commands::registry::{CommandAction, CommandDefinition, CommandRegistry};
use yambot::config::FeatureConfig;
use yambot::dispatch::{
    decide_chat_message, decide_normalized_message, effects_of_result, handle_chat_message,
    handle_normalized_message, may_play_sound, normalize_message, tts_command, ChatDecision,
    Effect, LogLevel, TtsCommand,
};
use yambot::roles::PermitedRoles;
use yambot::sfx::Format;
use yambot::tts::languages::LanguageConfig;
use yambot::player::{PlaybackScheduler, PlayerAction, PlayerEvent};
use yambot::tts::queue::{TTSAudioChunk, TTSQueue, TTSRequest};
use yambot::tts::service::TTSService;

fn badge(set_id: &str) -> Badge {
    Badge { set_id: set_id.to_string(), id: "1".to_string() }
}

fn message(text: &str, badges: Vec<Badge>) -> ChatMessageEvent {
    ChatMessageEvent {
        message_id: "msg-1".to_string(),
        text: text.to_string(),
        badges,
        chatter_user_login: "alice".to_string(),
        chatter_user_id: "42".to_string(),
        color: "#ff0000".to_string(),
    }
}

fn tts_on() -> FeatureConfig {
    FeatureConfig { enabled: true, permited_roles: PermitedRoles::new(true, true, true) }
}

fn decide(text: &str, badges: Vec<Badge>, tts: FeatureConfig) -> ChatDecision {
    decide_chat_message(
        message(text, badges),
        &LanguageConfig::new(),
        &tts,
        &CommandParser::with_default_prefix(),
        99,
    )
}

#[test]
fn log_levels_have_colours() {
    assert_eq!(LogLevel::Info.color(), (0, 255, 0));
    assert_eq!(LogLevel::Warn.color(), (255, 255, 0));
    assert_eq!(LogLevel::Error.color(), (255, 50, 0));
}

#[test]
fn tts_command_is_a_code_and_a_text() {
    assert_eq!(
        tts_command("!en hello world"),
        Some(TtsCommand { language: "en".to_string(), text: "hello world".to_string() })
    );
    assert_eq!(
        tts_command("!pl  two spaces"),
        Some(TtsCommand { language: "pl".to_string(), text: " two spaces".to_string() })
    );
    assert_eq!(
        tts_command("! text"),
        Some(TtsCommand { language: "".to_string(), text: "text".to_string() })
    );
    assert_eq!(
        tts_command("!en "),
        Some(TtsCommand { language: "en".to_string(), text: "".to_string() })
    );
}

#[test]
fn tts_command_needs_the_mark_and_a_space() {
    assert_eq!(tts_command("!en"), None);
    assert_eq!(tts_command("en hello"), None);
    assert_eq!(tts_command("!"), None);
    assert_eq!(tts_command(""), None);
    assert_eq!(tts_command("!en\thello"), None);
}

#[test]
fn message_is_trimmed_and_put_in_lower_case() {
    assert_eq!(normalize_message("  !EN Hello WORLD \n"), "!en hello world");
    assert_eq!(normalize_message("ÄÖÜ"), "äöü");
    assert_eq!(normalize_message(""), "");
}

#[test]
fn message_that_names_a_language_is_spoken() {
    assert_eq!(
        decide("!EN Hello World", vec![badge("subscriber")], tts_on()),
        ChatDecision::Speak(TTSRequest {
            id: "msg-1".to_string(),
            username: "alice".to_string(),
            language: "en".to_string(),
            text: "hello world".to_string(),
            timestamp: 99,
        })
    );
}

#[test]
fn speech_is_unavailable_when_switched_off() {
    let off = FeatureConfig { enabled: false, permited_roles: PermitedRoles::new(true, true, true) };
    assert_eq!(decide("!en hello", vec![badge("subscriber")], off), ChatDecision::TtsUnavailable);
}

#[test]
fn speech_is_unavailable_for_a_disabled_language() {
    let mut languages = LanguageConfig::new();
    languages.disable_language("en");
    let decision = decide_chat_message(
        message("!en hello", vec![badge("broadcaster")]),
        &languages,
        &tts_on(),
        &CommandParser::with_default_prefix(),
        0,
    );
    assert_eq!(decision, ChatDecision::TtsUnavailable);
}

#[test]
fn speech_is_denied_without_permission() {
    let mods_only = FeatureConfig { enabled: true, permited_roles: PermitedRoles::new(false, false, true) };
    assert_eq!(decide("!en hello", vec![badge("subscriber")], mods_only), ChatDecision::TtsDenied);
    assert_eq!(decide("!en hello", Vec::new(), mods_only), ChatDecision::TtsDenied);
    assert!(matches!(
        decide("!en hello", vec![badge("moderator")], mods_only),
        ChatDecision::Speak(_)
    ));
}

#[test]
fn speech_of_an_ignored_user_is_accepted_and_dropped_at_playback() {
    let mut service = TTSService::new(TTSQueue::new());
    service.queue_mut().ignore_user("alice");

    // The message is decided like that of any other user.
    let request = match decide("!en hello", vec![badge("subscriber")], tts_on()) {
        ChatDecision::Speak(request) => request,
        other => panic!("not spoken: {:?}", other),
    };
    assert_eq!(request.username, "alice");

    // Its audio is queued like that of any other user.
    let failed = service.process_request(request, vec![Ok(TTSAudioChunk { audio_data: vec![1] })]);
    assert!(failed.is_empty());
    assert_eq!(service.queue().len(), 1);

    // The scheduler drops it when its turn comes.
    let mut scheduler = PlaybackScheduler::new();
    assert_eq!(scheduler.step(service.queue_mut(), PlayerEvent::Wake), PlayerAction::Retry);
    assert!(service.queue().is_empty());
    assert_eq!(service.queue().get_currently_playing(), None);
}

#[test]
fn message_with_an_unknown_code_is_a_command() {
    match decide("!Hello there", vec![badge("subscriber")], tts_on()) {
        ChatDecision::Command(context) => {
            assert_eq!(context.command_name, "hello");
            assert_eq!(context.args, vec!["there"]);
            assert_eq!(context.now, 99);
        }
        other => panic!("not a command: {:?}", other),
    }
}

#[test]
fn code_with_capitals_is_never_found() {
    // The message is read in lower case, and the code of this language has capitals.
    match decide("!zh-CN hello", vec![badge("subscriber")], tts_on()) {
        ChatDecision::Command(context) => assert_eq!(context.command_name, "zh-cn"),
        other => panic!("not a command: {:?}", other),
    }
}

#[test]
fn ordinary_message_is_plain() {
    assert_eq!(decide("hello everyone", Vec::new(), tts_on()), ChatDecision::Plain);
    assert_eq!(decide("", Vec::new(), tts_on()), ChatDecision::Plain);
    assert_eq!(decide("!", Vec::new(), tts_on()), ChatDecision::Plain);
}

#[test]
fn decision_on_a_normalized_message() {
    let decision = decide_normalized_message(
        "!de guten tag",
        message("!DE Guten Tag", vec![badge("vip")]),
        &LanguageConfig::new(),
        &tts_on(),
        &CommandParser::with_default_prefix(),
        5,
    );
    assert_eq!(
        decision,
        ChatDecision::Speak(TTSRequest {
            id: "msg-1".to_string(),
            username: "alice".to_string(),
            language: "de".to_string(),
            text: "guten tag".to_string(),
            timestamp: 5,
        })
    );
}

#[test]
fn result_of_a_command_becomes_effects() {
    let parser = CommandParser::with_default_prefix();
    let context = parser.parse(message("!Airhorn now", vec![badge("vip")]), 0).unwrap();
    assert_eq!(
        effects_of_result(CommandResult::Success(CommandAction::Send("hi".to_string())), &context, Format::Wav),
        vec![Effect::SendMessage("hi".to_string())]
    );
    assert_eq!(
        effects_of_result(CommandResult::Success(CommandAction::Reply("yo".to_string())), &context, Format::Wav),
        vec![Effect::Reply { message_id: "msg-1".to_string(), text: "yo".to_string() }]
    );
    assert_eq!(
        effects_of_result(CommandResult::NotFound, &context, Format::Wav),
        vec![Effect::SoundFallback { file_name: "airhorn.wav".to_string() }]
    );
    assert_eq!(
        effects_of_result(CommandResult::NotFound, &context, Format::Mp3),
        vec![Effect::SoundFallback { file_name: "airhorn.mp3".to_string() }]
    );
    assert_eq!(
        effects_of_result(CommandResult::PermissionDenied, &context, Format::Wav),
        vec![Effect::Log(
            LogLevel::Warn,
            "User alice tried to use command !airhorn without permission".to_string()
        )]
    );
    assert_eq!(effects_of_result(CommandResult::OnCooldown(10), &context, Format::Wav), Vec::new());
}

#[test]
fn chat_message_runs_a_command() {
    let mut registry = CommandRegistry::new();
    registry.register(CommandDefinition::new(
        "hello",
        CommandAction::Reply("hi!".to_string()),
        PermitedRoles::new(true, false, false),
        5000,
    ));
    let languages = LanguageConfig::new();
    let parser = CommandParser::with_default_prefix();

    let (effects, recorded) = handle_chat_message(
        message("!hello", vec![badge("subscriber")]),
        &mut registry,
        &languages,
        &tts_on(),
        &parser,
        Format::Wav,
        1000,
    );
    assert_eq!(effects, vec![Effect::Reply { message_id: "msg-1".to_string(), text: "hi!".to_string() }]);
    assert!(recorded);
    assert_eq!(registry.get("hello").unwrap().last_triggered, Some(1000));

    let (effects, recorded) = handle_chat_message(
        message("!hello", vec![badge("subscriber")]),
        &mut registry,
        &languages,
        &tts_on(),
        &parser,
        Format::Wav,
        2000,
    );
    assert_eq!(effects, Vec::new());
    assert!(recorded);
    assert_eq!(registry.get("hello").unwrap().last_triggered, Some(1000));

    let (effects, _) = handle_chat_message(
        message("!hello", vec![badge("vip")]),
        &mut registry,
        &languages,
        &tts_on(),
        &parser,
        Format::Wav,
        9000,
    );
    assert_eq!(
        effects,
        vec![Effect::Log(
            LogLevel::Warn,
            "User alice tried to use command !hello without permission".to_string()
        )]
    );
}

#[test]
fn chat_message_for_speech_leaves_the_commands_alone() {
    let mut registry = CommandRegistry::new();
    registry.register(CommandDefinition::new(
        "en",
        CommandAction::Send("never".to_string()),
        PermitedRoles::new(true, true, true),
        0,
    ));
    let languages = LanguageConfig::new();
    let parser = CommandParser::with_default_prefix();

    let (effects, recorded) = handle_chat_message(
        message("!en Hello", vec![badge("vip")]),
        &mut registry,
        &languages,
        &tts_on(),
        &parser,
        Format::Wav,
        7,
    );
    assert_eq!(
        effects,
        vec![Effect::Speak(TTSRequest {
            id: "msg-1".to_string(),
            username: "alice".to_string(),
            language: "en".to_string(),
            text: "hello".to_string(),
            timestamp: 7,
        })]
    );
    assert!(recorded);
    assert_eq!(registry.get("en").unwrap().last_triggered, None);

    let mods_only = FeatureConfig { enabled: true, permited_roles: PermitedRoles::new(false, false, true) };
    let (effects, recorded) = handle_chat_message(
        message("!en Hello", vec![badge("vip")]),
        &mut registry,
        &languages,
        &mods_only,
        &parser,
        Format::Wav,
        8,
    );
    assert_eq!(effects, Vec::new());
    assert!(!recorded);
}

#[test]
fn chat_message_without_a_command_falls_back_to_a_sound() {
    let mut registry = CommandRegistry::new();
    let (effects, recorded) = handle_normalized_message(
        "!airhorn",
        message("!airhorn", vec![badge("vip")]),
        &mut registry,
        &LanguageConfig::new(),
        &tts_on(),
        &CommandParser::with_default_prefix(),
        Format::Opus,
        0,
    );
    assert_eq!(effects, vec![Effect::SoundFallback { file_name: "airhorn.opus".to_string() }]);
    assert!(recorded);
}

#[test]
fn sound_needs_the_file_the_permission_and_the_feature() {
    let on = FeatureConfig { enabled: true, permited_roles: PermitedRoles::new(true, false, false) };
    let off = FeatureConfig { enabled: false, permited_roles: PermitedRoles::new(true, false, false) };
    assert!(may_play_sound(true, &on, &vec![badge("subscriber")]));
    assert!(!may_play_sound(false, &on, &vec![badge("subscriber")]));
    assert!(!may_play_sound(true, &on, &vec![badge("vip")]));
    assert!(!may_play_sound(true, &off, &vec![badge("subscriber")]));
    assert!(!may_play_sound(true, &off, &vec![badge("broadcaster")]));
    assert!(may_play_sound(true, &on, &vec![badge("broadcaster")]));
}

#[test]
fn chat_message_of_an_event_keeps_its_fields() {
    let event = ChatMessageEvent {
        message_id: "m".to_string(),
        text: "hello".to_string(),
        badges: vec![
            Badge { set_id: "subscriber".to_string(), id: "12".to_string() },
            Badge { set_id: "vip".to_string(), id: "1".to_string() },
        ],
        chatter_user_login: "alice".to_string(),
        chatter_user_id: "42".to_string(),
        color: "#00ff00".to_string(),
    };
    assert_eq!(
        ChatMessage::from(event),
        ChatMessage {
            message_id: "m".to_string(),
            message_text: "hello".to_string(),
            badges: vec!["subscriber-12".to_string(), "vip-1".to_string()],
            username: "alice".to_string(),
            user_id: "42".to_string(),
            color: "#00ff00".to_string(),
        }
    );
}

#[test]
fn badge_label_joins_set_and_version() {
    assert_eq!(Badge { set_id: "founder".to_string(), id: "0".to_string() }.label(), "founder-0");
    assert_eq!(Badge { set_id: "".to_string(), id: "".to_string() }.label(), "-");
}
