use yambot::config::{ChatbotConfig, FeatureConfig};
use yambot::dispatch::{Effect, LogLevel};
use yambot::events::{
    ban_report, effects_of_connect, effects_of_event, welcome_report, welcome_to_send, BanEvent,
    ConnectionEvent, WELCOME_DELAY_MS,
};
use yambot::roles::PermitedRoles;
use yambot::sfx::{AudioPlaybackRequest, Format, SOUNDS_DIRECTORY};
use yambot::ui::{ButtonAction, ChatbotUILabels};

fn ban(permanent: bool, ends_at: Option<&str>) -> BanEvent {
    BanEvent {
        user_name: "mallory".to_string(),
        moderator_user_name: "mod".to_string(),
        reason: "spam".to_string(),
        is_permanent: permanent,
        ends_at: ends_at.map(|t| t.to_string()),
    }
}

fn account(token: &str, welcome: &str) -> ChatbotConfig {
    ChatbotConfig {
        channel_name: "channel".to_string(),
        auth_token: token.to_string(),
        refresh_token: "refresh".to_string(),
        welcome_message: welcome.to_string(),
    }
}

#[test]
fn ready_connection_is_logged() {
    assert_eq!(
        effects_of_event(ConnectionEvent::Connected),
        vec![Effect::Log(LogLevel::Info, "EventSub ready - listening for chat events".to_string())]
    );
}

#[test]
fn ban_is_reported() {
    assert_eq!(ban_report(&ban(true, None)), "mallory was permanently banned by mod: spam");
    assert_eq!(
        ban_report(&ban(false, Some("2024-01-01T00:00:00Z"))),
        "mallory was timed out by mod: spam (until 2024-01-01T00:00:00Z)"
    );
    assert_eq!(
        effects_of_event(ConnectionEvent::ChannelBan(ban(true, None))),
        vec![Effect::Log(LogLevel::Warn, "mallory was permanently banned by mod: spam".to_string())]
    );
}

#[test]
fn unban_is_reported() {
    assert_eq!(
        effects_of_event(ConnectionEvent::ChannelUnban {
            user_name: "mallory".to_string(),
            moderator_user_name: "mod".to_string(),
        }),
        vec![Effect::Log(LogLevel::Info, "mallory was unbanned by mod".to_string())]
    );
}

#[test]
fn new_tokens_are_saved() {
    assert_eq!(
        effects_of_event(ConnectionEvent::TokensRefreshed("access".to_string(), "refresh".to_string())),
        vec![Effect::SaveTokens { auth_token: "access".to_string(), refresh_token: "refresh".to_string() }]
    );
}

#[test]
fn lost_connection_stops_the_loop() {
    assert_eq!(
        effects_of_event(ConnectionEvent::Disconnected),
        vec![
            Effect::ConnectionFailure("Disconnected".to_string()),
            Effect::Log(LogLevel::Error, "Disconnected from Twitch".to_string()),
            Effect::Stop,
        ]
    );
}

#[test]
fn warnings_and_errors_are_logged() {
    assert_eq!(
        effects_of_event(ConnectionEvent::Warning("slow".to_string())),
        vec![Effect::Log(LogLevel::Warn, "slow".to_string())]
    );
    assert_eq!(
        effects_of_event(ConnectionEvent::Error("boom".to_string())),
        vec![Effect::Log(LogLevel::Error, "Twitch error: boom".to_string())]
    );
    assert_eq!(effects_of_event(ConnectionEvent::Other), Vec::new());
}

#[test]
fn connect_reports_success_or_failure() {
    assert_eq!(
        effects_of_connect(None),
        vec![
            Effect::ConnectionSuccess("Connected".to_string()),
            Effect::Log(LogLevel::Info, "Successfully connected to Twitch chat".to_string()),
        ]
    );
    assert_eq!(
        effects_of_connect(Some("no route")),
        vec![
            Effect::ConnectionFailure("Connection Failed".to_string()),
            Effect::Log(LogLevel::Error, "Failed to connect: no route".to_string()),
            Effect::Stop,
        ]
    );
}

#[test]
fn blank_welcome_message_is_not_sent() {
    assert_eq!(WELCOME_DELAY_MS, 500);
    assert_eq!(welcome_to_send(None), None);
    assert_eq!(welcome_to_send(Some("")), None);
    assert_eq!(welcome_to_send(Some("  \n")), None);
    assert_eq!(welcome_to_send(Some(" hi ")), Some(" hi ".to_string()));
}

#[test]
fn welcome_report_tells_how_sending_went() {
    assert_eq!(
        welcome_report("hi", None),
        Effect::Log(LogLevel::Info, "✓ Sent welcome message: hi".to_string())
    );
    assert_eq!(
        welcome_report("hi", Some("HTTP 403")),
        Effect::Log(
            LogLevel::Error,
            "❌ Cannot send welcome message - Missing OAuth scope 'user:write:chat'. Please re-authorize with write permissions.".to_string()
        )
    );
    assert_eq!(
        welcome_report("hi", Some("Forbidden by server")),
        Effect::Log(
            LogLevel::Error,
            "❌ Cannot send welcome message - Missing OAuth scope 'user:write:chat'. Please re-authorize with write permissions.".to_string()
        )
    );
    assert_eq!(
        welcome_report("hi", Some("timeout")),
        Effect::Log(LogLevel::Error, "❌ Failed to send welcome message: timeout".to_string())
    );
}

#[test]
fn account_gets_new_tokens() {
    let updated = account("old", "hi").with_tokens("new".to_string(), "newer".to_string());
    assert_eq!(
        updated,
        ChatbotConfig {
            channel_name: "channel".to_string(),
            auth_token: "new".to_string(),
            refresh_token: "newer".to_string(),
            welcome_message: "hi".to_string(),
        }
    );
    assert_eq!(updated.clone(), updated);
}

#[test]
fn account_welcome_and_token() {
    assert_eq!(account("t", "hello chat").welcome(), Some("hello chat".to_string()));
    assert_eq!(account("t", "   ").welcome(), None);
    assert!(account("t", "").has_token());
    assert!(!account("", "").has_token());
}

#[test]
fn feature_config_is_plain_data() {
    let a = FeatureConfig { enabled: true, permited_roles: PermitedRoles::new(true, false, true) };
    let b = a;
    assert_eq!(a, b);
    assert!(a.permited_roles.subs && !a.permited_roles.vips && a.permited_roles.mods);
}

#[test]
fn formats_have_endings() {
    assert_eq!(Format::Wav.extension(), "wav");
    assert_eq!(Format::Opus.extension(), "opus");
    assert_eq!(Format::Mp3.extension(), "mp3");
    assert_eq!(Format::Wav.file_name("airhorn"), "airhorn.wav");
    assert_eq!(Format::Mp3.file_name(""), ".mp3");
}

#[test]
fn sound_lies_in_the_sound_directory() {
    assert_eq!(SOUNDS_DIRECTORY, "./assets/sounds/");
    let request = AudioPlaybackRequest::sound("airhorn.wav".to_string());
    assert!(!request.is_full_path);
    assert_eq!(request.path(), "./assets/sounds/airhorn.wav");
    let full = AudioPlaybackRequest { file_path: "/tmp/x.mp3".to_string(), is_full_path: true };
    assert_eq!(full.path(), "/tmp/x.mp3");
}

#[test]
fn connect_button_connects_and_disconnects() {
    let mut labels = ChatbotUILabels::new();
    assert_eq!(labels.bot_status(), "Disconnected");
    assert_eq!(labels.connect_button(), "Connect");

    assert_eq!(labels.press(&account("token", "")), ButtonAction::Connect("channel".to_string()));
    assert_eq!(labels.bot_status(), "Connected");
    assert_eq!(labels.connect_button(), "Disconnect");

    assert_eq!(labels.press(&account("token", "")), ButtonAction::Disconnect("channel".to_string()));
    assert_eq!(labels.bot_status(), "Disconnected");
    assert_eq!(labels.connect_button(), "Connect");
}

#[test]
fn connect_button_refuses_without_a_token() {
    let mut labels = ChatbotUILabels::new();
    assert_eq!(
        labels.press(&account("", "")),
        ButtonAction::Refuse("Tried to connect to the chat without auth token".to_string())
    );
    assert_eq!(labels.bot_status(), "Disconnected");
    assert_eq!(labels.connect_button(), "Connect");
}
