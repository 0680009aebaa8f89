use swifttype::config::settings::{Snippet, SnippetType};
use swifttype::config::{ConfigManager, Settings};
use swifttype::text::normalize;
use swifttype::ui::validate_keyword;

#[test]
fn test_default_settings() {
    let settings = Settings::default();
    assert!(settings.enabled);
    assert!(!settings.start_with_system);
    assert!(settings.toggle_hotkey.is_none());
    assert!(settings.open_window_hotkey.is_none());
    assert_eq!(settings.snippets.len(), 5);
    assert_eq!(settings.snippets[0].keyword, "ddate");
    assert_eq!(settings.snippets[0].content, "yyyy/MM/dd");
    assert_eq!(settings.snippets[0].snippet_type, SnippetType::Dynamic);
    assert_eq!(settings.snippets[1].keyword, "yyyymmdd");
    assert_eq!(settings.snippets[2].keyword, "ttime");
    assert_eq!(settings.snippets[3].keyword, "tstamp");
    assert_eq!(settings.snippets[4].keyword, "sig");
    assert_eq!(settings.snippets[4].snippet_type, SnippetType::Static);
    assert!(settings.snippets.iter().all(|s| s.enabled));
}

#[test]
fn test_snippet_new_is_enabled() {
    let snippet = Snippet::new(
        "Name".to_string(),
        "kw".to_string(),
        "content".to_string(),
        SnippetType::Static,
        "Cat".to_string(),
    );
    assert!(snippet.enabled);
    assert_eq!(snippet.name, "Name");
    assert_eq!(snippet.keyword, "kw");
    assert_eq!(snippet.content, "content");
    assert_eq!(snippet.category, "Cat");
}

#[test]
fn test_config_manager_sanitizes_on_load() {
    let mut settings = Settings::default();
    settings.snippets = vec![Snippet::new(
        "Legacy".to_string(),
        "a=b;c,d".to_string(),
        "text".to_string(),
        SnippetType::Static,
        "Cat".to_string(),
    )];
    let manager = ConfigManager::new(settings);
    assert_eq!(manager.get_settings().snippets[0].keyword, "a_b_c_d");
    assert_eq!(manager.get_settings().snippets[0].content, "text");
}

#[test]
fn test_update_settings_sanitizes() {
    let manager_settings = Settings::default();
    let mut manager = ConfigManager::new(manager_settings);

    let mut new_settings = Settings::default();
    new_settings.enabled = false;
    new_settings.snippets = vec![Snippet::new(
        "Edited".to_string(),
        "x=y".to_string(),
        "stuff".to_string(),
        SnippetType::Static,
        "Cat".to_string(),
    )];
    manager.update_settings(new_settings);
    assert!(!manager.get_settings().enabled);
    assert_eq!(manager.get_settings().snippets[0].keyword, "x_y");
}

#[test]
fn test_normalize_idempotent() {
    let once = normalize("a=b;c,d");
    assert_eq!(once, "a_b_c_d");
    let twice = normalize(once.as_str());
    assert_eq!(twice, once);
    assert_eq!(normalize("plain"), "plain");
}

#[test]
fn test_validate_keyword() {
    assert!(validate_keyword("hello"));
    assert!(validate_keyword(""));
    assert!(!validate_keyword("a=b"));
    assert!(!validate_keyword("a;b"));
    assert!(!validate_keyword("a,b"));
}
