use yambot::chat::{Badge, ChatMessageEvent};
use yambot::commands::executor::{CommandContext, CommandExecutor, CommandResult};
use yambot::commands::parser::CommandParser;
use yambot::commands::registry::{CommandAction, CommandDefinition, CommandRegistry};
use yambot::roles::PermitedRoles;

fn badge(set_id: &str) -> Badge {
    Badge { set_id: set_id.to_string(), id: "1".to_string() }
}

fn everyone() -> PermitedRoles {
    PermitedRoles::new(true, true, true)
}

fn send(trigger: &str, text: &str, cooldown: u64) -> CommandDefinition {
    CommandDefinition::new(trigger, CommandAction::Send(text.to_string()), everyone(), cooldown)
}

fn message(text: &str, badges: Vec<Badge>) -> ChatMessageEvent {
    ChatMessageEvent {
        message_id: "msg-1".to_string(),
        text: text.to_string(),
        badges,
        chatter_user_login: "alice".to_string(),
        chatter_user_id: "42".to_string(),
        color: "#ff0000".to_string(),
    }
}

#[test]
fn new_definition_is_enabled_and_has_not_run() {
    let def = send("Hello", "hi there", 5000);
    assert_eq!(def.trigger, "hello");
    assert_eq!(def.action, CommandAction::Send("hi there".to_string()));
    assert_eq!(def.cooldown, 5000);
    assert!(def.enabled);
    assert_eq!(def.last_triggered, None);
}

#[test]
fn new_registry_is_empty() {
    let registry = CommandRegistry::new();
    assert_eq!(registry.len(), 0);
    assert!(registry.is_empty());
    assert!(registry.get("hello").is_none());
    assert!(registry.list().is_empty());
}

#[test]
fn register_adds_a_command() {
    let mut registry = CommandRegistry::new();
    registry.register(send("hello", "hi", 0));
    assert_eq!(registry.len(), 1);
    assert!(registry.contains("hello"));
    assert_eq!(registry.get("hello").unwrap().action, CommandAction::Send("hi".to_string()));
}

#[test]
fn register_twice_replaces_the_command() {
    let mut registry = CommandRegistry::new();
    registry.register(send("hello", "hi", 0));
    registry.register(send("bye", "see you", 0));
    registry.register(send("hello", "good day", 7));
    assert_eq!(registry.len(), 2);
    assert_eq!(registry.get("hello").unwrap().action, CommandAction::Send("good day".to_string()));
    let triggers: Vec<String> = registry.list().iter().map(|d| d.trigger.clone()).collect();
    assert_eq!(triggers, vec!["hello", "bye"]);
}

#[test]
fn triggers_are_kept_in_lower_case() {
    let mut registry = CommandRegistry::new();
    let mut def = send("x", "hi", 0);
    def.trigger = "HeLLo".to_string();
    registry.register(def);
    assert_eq!(registry.get("hello").unwrap().trigger, "hello");
    assert!(registry.contains("HELLO"));
    assert!(registry.get("Hello").is_some());
}

#[test]
fn unregister_removes_a_command() {
    let mut registry = CommandRegistry::new();
    registry.register(send("a", "1", 0));
    registry.register(send("b", "2", 0));
    registry.register(send("c", "3", 0));
    registry.unregister("B");
    let triggers: Vec<String> = registry.list().iter().map(|d| d.trigger.clone()).collect();
    assert_eq!(triggers, vec!["a", "c"]);
    registry.unregister("missing");
    assert_eq!(registry.len(), 2);
}

#[test]
fn toggle_sets_the_enabled_flag() {
    let mut registry = CommandRegistry::new();
    registry.register(send("a", "1", 0));
    assert!(registry.toggle("a", false));
    assert!(!registry.get("a").unwrap().enabled);
    assert!(registry.toggle("A", true));
    assert!(registry.get("a").unwrap().enabled);
    assert!(!registry.toggle("missing", true));
}

#[test]
fn get_mut_changes_the_definition() {
    let mut registry = CommandRegistry::new();
    registry.register(send("a", "1", 0));
    match registry.get_mut("a") {
        Some(def) => def.cooldown = 99,
        None => panic!("the command is registered"),
    }
    assert_eq!(registry.get("a").unwrap().cooldown, 99);
    assert!(registry.get_mut("missing").is_none());
}

#[test]
fn clone_of_a_registry_holds_the_same_commands() {
    let mut registry = CommandRegistry::new();
    registry.register(send("a", "1", 3));
    let copy = registry.clone();
    registry.unregister("a");
    assert_eq!(copy.len(), 1);
    assert_eq!(copy.get("a").unwrap().cooldown, 3);
}

#[test]
fn command_that_is_missing_is_not_found() {
    let mut registry = CommandRegistry::new();
    assert_eq!(registry.execute("nothing", &vec![badge("broadcaster")], 0), CommandResult::NotFound);
}

#[test]
fn command_that_is_disabled_is_not_found() {
    let mut registry = CommandRegistry::new();
    registry.register(send("a", "1", 0));
    registry.toggle("a", false);
    assert_eq!(registry.execute("a", &vec![badge("broadcaster")], 0), CommandResult::NotFound);
    assert_eq!(registry.get("a").unwrap().last_triggered, None);
}

#[test]
fn cooldown_of_five_seconds() {
    let mut registry = CommandRegistry::new();
    registry.register(send("hello", "hi", 5000));
    let badges = vec![badge("subscriber")];
    assert_eq!(
        registry.execute("hello", &badges, 0),
        CommandResult::Success(CommandAction::Send("hi".to_string()))
    );
    assert_eq!(registry.execute("hello", &badges, 2000), CommandResult::OnCooldown(3000));
    assert_eq!(registry.get("hello").unwrap().last_triggered, Some(0));
    assert_eq!(
        registry.execute("hello", &badges, 6000),
        CommandResult::Success(CommandAction::Send("hi".to_string()))
    );
    assert_eq!(registry.get("hello").unwrap().last_triggered, Some(6000));
}

#[test]
fn cooldown_ends_exactly_after_its_length() {
    let mut registry = CommandRegistry::new();
    registry.register(send("a", "1", 1000));
    let badges = vec![badge("vip")];
    assert!(matches!(registry.execute("a", &badges, 500), CommandResult::Success(_)));
    assert_eq!(registry.execute("a", &badges, 1499), CommandResult::OnCooldown(1));
    assert!(matches!(registry.execute("a", &badges, 1500), CommandResult::Success(_)));
}

#[test]
fn clock_that_goes_back_counts_as_no_time_passed() {
    let mut registry = CommandRegistry::new();
    registry.register(send("a", "1", 1000));
    let badges = vec![badge("vip")];
    assert!(matches!(registry.execute("a", &badges, 5000), CommandResult::Success(_)));
    assert_eq!(registry.execute("a", &badges, 4000), CommandResult::OnCooldown(1000));
}

#[test]
fn command_without_cooldown_always_runs() {
    let mut registry = CommandRegistry::new();
    registry.register(send("a", "1", 0));
    let badges = vec![badge("moderator")];
    assert!(matches!(registry.execute("a", &badges, 10), CommandResult::Success(_)));
    assert!(matches!(registry.execute("a", &badges, 10), CommandResult::Success(_)));
}

#[test]
fn subscriber_is_allowed_when_subscribers_are() {
    let mut registry = CommandRegistry::new();
    registry.register(CommandDefinition::new(
        "a",
        CommandAction::Reply("r".to_string()),
        PermitedRoles::new(true, false, false),
        0,
    ));
    assert_eq!(
        registry.execute("a", &vec![badge("subscriber")], 0),
        CommandResult::Success(CommandAction::Reply("r".to_string()))
    );
}

#[test]
fn subscriber_is_denied_when_subscribers_are_not() {
    let mut registry = CommandRegistry::new();
    registry.register(CommandDefinition::new(
        "a",
        CommandAction::Reply("r".to_string()),
        PermitedRoles::new(false, true, true),
        0,
    ));
    assert_eq!(registry.execute("a", &vec![badge("subscriber")], 0), CommandResult::PermissionDenied);
    assert_eq!(registry.get("a").unwrap().last_triggered, None);
}

#[test]
fn broadcaster_is_always_allowed() {
    let mut registry = CommandRegistry::new();
    registry.register(CommandDefinition::new(
        "a",
        CommandAction::Send("s".to_string()),
        PermitedRoles::new(false, false, false),
        0,
    ));
    assert!(matches!(
        registry.execute("a", &vec![badge("broadcaster")], 0),
        CommandResult::Success(_)
    ));
}

#[test]
fn permission_is_checked_before_the_cooldown() {
    let mut registry = CommandRegistry::new();
    registry.register(CommandDefinition::new(
        "a",
        CommandAction::Send("s".to_string()),
        PermitedRoles::new(false, false, true),
        10_000,
    ));
    assert!(matches!(registry.execute("a", &vec![badge("moderator")], 0), CommandResult::Success(_)));
    assert_eq!(registry.execute("a", &vec![badge("vip")], 1), CommandResult::PermissionDenied);
    assert_eq!(registry.execute("a", &vec![badge("moderator")], 1), CommandResult::OnCooldown(9_999));
}

#[test]
fn roles_admit_by_badge() {
    let subs = PermitedRoles::new(true, false, false);
    assert!(subs.permits(&vec![badge("subscriber")]));
    assert!(subs.permits(&vec![badge("founder")]));
    assert!(!subs.permits(&vec![badge("vip")]));
    assert!(!subs.permits(&vec![badge("moderator")]));
    assert!(!subs.permits(&Vec::new()));
    let vips = PermitedRoles::new(false, true, false);
    assert!(vips.permits(&vec![badge("vip")]));
    assert!(!vips.permits(&vec![badge("subscriber")]));
    let mods = PermitedRoles::new(false, false, true);
    assert!(mods.permits(&vec![badge("premium"), badge("moderator")]));
    assert!(!mods.permits(&vec![badge("premium")]));
    let nobody = PermitedRoles::new(false, false, false);
    assert!(nobody.permits(&vec![badge("broadcaster")]));
    assert!(!nobody.permits(&vec![badge("subscriber"), badge("vip"), badge("moderator")]));
    assert!(nobody.permits_badge("broadcaster"));
    assert!(!nobody.permits_badge("Broadcaster"));
}

#[test]
fn parser_recognizes_a_command() {
    let parser = CommandParser::with_default_prefix();
    assert_eq!(parser.prefix(), "!");
    let context = parser.parse(message("!Hello  there  World", vec![badge("vip")]), 17).unwrap();
    assert_eq!(context.command_name, "hello");
    assert_eq!(context.args, vec!["there", "World"]);
    assert_eq!(context.now, 17);
    assert_eq!(context.username(), "alice");
    assert_eq!(context.badges(), &vec![badge("vip")]);
    assert_eq!(context.message.text, "!Hello  there  World");
}

#[test]
fn parser_refuses_what_is_no_command() {
    let parser = CommandParser::with_default_prefix();
    assert!(parser.parse(message("hello", Vec::new()), 0).is_none());
    assert!(parser.parse(message("", Vec::new()), 0).is_none());
    assert!(parser.parse(message("!", Vec::new()), 0).is_none());
    assert!(parser.parse(message("!   ", Vec::new()), 0).is_none());
    assert!(parser.parse(message(" !hello", Vec::new()), 0).is_none());
}

#[test]
fn parser_takes_the_first_word_after_the_prefix() {
    let parser = CommandParser::with_default_prefix();
    let context = parser.parse(message("! spaced out", Vec::new()), 0).unwrap();
    assert_eq!(context.command_name, "spaced");
    assert_eq!(context.args, vec!["out"]);
}

#[test]
fn parser_with_another_prefix() {
    let parser = CommandParser::new("??");
    assert_eq!(parser.prefix(), "??");
    assert!(parser.parse(message("?help", Vec::new()), 0).is_none());
    assert_eq!(parser.parse(message("??help", Vec::new()), 0).unwrap().command_name, "help");
}

#[test]
fn executor_runs_the_command_of_a_context() {
    let mut registry = CommandRegistry::new();
    registry.register(send("hello", "hi", 5000));
    let mut executor = CommandExecutor::new(registry);
    let parser = CommandParser::with_default_prefix();
    let first: CommandContext = parser.parse(message("!HELLO", vec![badge("subscriber")]), 0).unwrap();
    assert_eq!(executor.execute(&first), CommandResult::Success(CommandAction::Send("hi".to_string())));
    let second = parser.parse(message("!hello", vec![badge("subscriber")]), 2000).unwrap();
    assert_eq!(executor.execute(&second), CommandResult::OnCooldown(3000));
    assert_eq!(executor.registry().get("hello").unwrap().last_triggered, Some(0));
    let registry = executor.into_registry();
    assert_eq!(registry.len(), 1);
}

#[test]
fn default_registry_is_empty() {
    assert!(CommandRegistry::default().is_empty());
}

#[test]
fn time_of_the_last_run_never_goes_back_with_the_clock() {
    let mut registry = CommandRegistry::new();
    registry.register(send("a", "1", 10));
    let badges = vec![badge("vip")];
    let mut last = 0;
    for now in [5u64, 7, 15, 16, 30, 100] {
        registry.execute("a", &badges, now);
        let recorded = registry.get("a").unwrap().last_triggered.unwrap();
        assert!(recorded >= last);
        last = recorded;
    }
    assert_eq!(last, 100);
}
