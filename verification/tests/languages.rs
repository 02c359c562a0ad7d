use yambot::tts::defaults::{default_config, LANGUAGE_COUNT};
use yambot::tts::languages::{Language, LanguageConfig};

fn names(languages: &Vec<&Language>) -> Vec<String> {
    languages.iter().map(|l| l.name.clone()).collect()
}

#[test]
fn new_configuration_has_every_language_enabled() {
    let config = LanguageConfig::new();
    assert_eq!(config.len(), 106);
    assert_eq!(config.get_enabled_languages().len(), 106);
    for language in config.get_all_languages() {
        assert!(language.enabled);
    }
}

#[test]
fn new_configuration_knows_the_codes() {
    let config = LanguageConfig::new();
    assert_eq!(
        config.get_language("en"),
        Some(&Language { code: "en".to_string(), name: "English".to_string(), enabled: true })
    );
    assert_eq!(config.get_language("pl").unwrap().name, "Polish");
    assert_eq!(config.get_language("zh-CN").unwrap().name, "Chinese (Simplified)");
    assert_eq!(config.get_language("af").unwrap().name, "Afrikaans");
    assert_eq!(config.get_language("zu").unwrap().name, "Zulu");
    assert!(config.get_language("xx").is_none());
    assert!(config.get_language("EN").is_none());
    assert!(config.get_language("").is_none());
}

#[test]
fn default_is_the_new_configuration() {
    assert_eq!(LanguageConfig::default().len(), LanguageConfig::new().len());
}

#[test]
fn empty_configuration_has_no_language() {
    let config = LanguageConfig::empty();
    assert_eq!(config.len(), 0);
    assert!(!config.is_enabled("en"));
    assert!(config.get_all_languages().is_empty());
    assert!(config.get_enabled_languages().is_empty());
}

#[test]
fn language_that_is_unknown_is_not_enabled() {
    let config = LanguageConfig::new();
    assert!(config.is_enabled("en"));
    assert!(!config.is_enabled("xx"));
}

#[test]
fn toggle_switches_a_language() {
    let mut config = LanguageConfig::new();
    config.toggle_language("en");
    assert!(!config.is_enabled("en"));
    assert!(config.is_enabled("pl"));
    config.toggle_language("en");
    assert!(config.is_enabled("en"));
    config.toggle_language("xx");
    assert_eq!(config.len(), 106);
}

#[test]
fn enable_and_disable_set_the_flag() {
    let mut config = LanguageConfig::new();
    config.disable_language("de");
    assert!(!config.is_enabled("de"));
    config.disable_language("de");
    assert!(!config.is_enabled("de"));
    config.enable_language("de");
    assert!(config.is_enabled("de"));
    config.enable_language("xx");
    config.disable_language("xx");
    assert_eq!(config.len(), 106);
    assert_eq!(config.get_enabled_languages().len(), 106);
}

#[test]
fn enabled_languages_leave_out_the_disabled() {
    let mut config = LanguageConfig::new();
    config.disable_language("en");
    config.disable_language("fr");
    let enabled = config.get_enabled_languages();
    assert_eq!(enabled.len(), 104);
    assert!(enabled.iter().all(|l| l.code != "en" && l.code != "fr"));
    assert_eq!(enabled[0].code, "af");
}

#[test]
fn all_languages_are_sorted_by_name() {
    let config = LanguageConfig::new();
    let sorted = names(&config.get_all_languages());
    let mut expected = sorted.clone();
    expected.sort();
    assert_eq!(sorted, expected);
    assert_eq!(sorted.first().unwrap(), "Afrikaans");
    assert_eq!(sorted.last().unwrap(), "Zulu");
    assert_eq!(sorted.len(), 106);
}

#[test]
fn sorting_keeps_every_language_once() {
    let mut config = LanguageConfig::empty();
    config.insert(Language::new("c", "Cherry"));
    config.insert(Language::new("a", "Apple"));
    config.insert(Language::new("b", "Banana"));
    config.insert(Language::new("a2", "Apple"));
    let sorted = config.get_all_languages();
    let codes: Vec<String> = sorted.iter().map(|l| l.code.clone()).collect();
    assert_eq!(codes, vec!["a", "a2", "b", "c"]);
    let copies = config.sorted_copy();
    let copied: Vec<String> = copies.iter().map(|l| l.code.clone()).collect();
    assert_eq!(copied, codes);
}

#[test]
fn insert_replaces_the_language_with_the_same_code() {
    let mut config = LanguageConfig::empty();
    config.insert(Language::new("a", "Apple"));
    config.insert(Language::new("b", "Banana"));
    config.insert(Language { code: "a".to_string(), name: "Apricot".to_string(), enabled: false });
    assert_eq!(config.len(), 2);
    assert_eq!(config.get_language("a").unwrap().name, "Apricot");
    assert!(!config.is_enabled("a"));
    let enabled = config.get_enabled_languages();
    assert_eq!(enabled.len(), 1);
    assert_eq!(enabled[0].code, "b");
}

#[test]
fn clone_of_a_configuration_is_independent() {
    let mut config = LanguageConfig::new();
    let copy = config.clone();
    config.disable_language("en");
    assert!(copy.is_enabled("en"));
    assert!(!config.is_enabled("en"));
}

#[test]
fn default_configuration_has_distinct_codes() {
    assert_eq!(LANGUAGE_COUNT, 106);
    let config = default_config();
    assert_eq!(config.len(), LANGUAGE_COUNT);
    let mut codes: Vec<String> = config.get_all_languages().iter().map(|l| l.code.clone()).collect();
    codes.sort();
    codes.dedup();
    assert_eq!(codes.len(), LANGUAGE_COUNT);
}

#[test]
fn default_configuration_is_in_the_order_of_the_names() {
    let config = LanguageConfig::new();
    let enabled = config.get_enabled_languages();
    assert_eq!(enabled[0].code, "af");
    assert_eq!(enabled[19].code, "en");
    assert_eq!(enabled[105].code, "zu");
}
