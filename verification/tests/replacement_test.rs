use swifttype::config::settings::{Snippet, SnippetType};
use swifttype::config::Settings;
use swifttype::keyboard::{KeyboardHook, KeyboardState};
use swifttype::replacement::formatter::format_dynamic_content;
use swifttype::replacement::ReplacementEngine;

fn test_settings(snippets: Vec<Snippet>) -> Settings {
    let mut settings = Settings::default();
    settings.enabled = true;
    settings.snippets = snippets;
    settings
}

#[test]
fn test_format_dynamic_content() {
    let result = format_dynamic_content("Today is {date:yyyy/MM/dd}");
    assert!(result.starts_with("Today is "));
    assert!(result.contains("/"));

    let result = format_dynamic_content("Plain text without format");
    assert_eq!(result, "Plain text without format");
}

#[test]
fn test_check_for_replacements() {
    let settings = test_settings(vec![
        Snippet::new(
            "Test Snippet 1".to_string(),
            "test1".to_string(),
            "Replacement 1".to_string(),
            SnippetType::Static,
            "Test".to_string(),
        ),
        Snippet::new(
            "Test Snippet 2".to_string(),
            "test2".to_string(),
            "Replacement 2".to_string(),
            SnippetType::Static,
            "Test".to_string(),
        ),
    ]);

    let engine = ReplacementEngine::new(settings);

    let result = engine.check_for_replacements("This is a test");
    assert!(result.is_none());

    let result = engine.check_for_replacements("This is a test1");
    assert!(result.is_some());
    let (replacement, trigger_len) = result.unwrap();
    assert_eq!(replacement, "Replacement 1");
    assert_eq!(trigger_len, 5);

    let result = engine.check_for_replacements("Another test2");
    assert!(result.is_some());
    let (replacement, trigger_len) = result.unwrap();
    assert_eq!(replacement, "Replacement 2");
    assert_eq!(trigger_len, 5);
}

#[test]
fn test_first_match_wins() {
    // both snippets match a buffer ending in "ab"; the first in list order wins,
    // and the result is the same on every call
    let settings = test_settings(vec![
        Snippet::new(
            "First".to_string(),
            "ab".to_string(),
            "first".to_string(),
            SnippetType::Static,
            "Test".to_string(),
        ),
        Snippet::new(
            "Second".to_string(),
            "zab".to_string(),
            "second".to_string(),
            SnippetType::Static,
            "Test".to_string(),
        ),
    ]);
    let engine = ReplacementEngine::new(settings);
    let first = engine.check_for_replacements("xyzab");
    let second = engine.check_for_replacements("xyzab");
    assert_eq!(first, second);
    let (replacement, trigger_len) = first.unwrap();
    assert_eq!(replacement, "first");
    assert_eq!(trigger_len, 2);
}

#[test]
fn test_normalized_fallback_match() {
    // the stored keyword still holds "=", but a typed buffer ending in the
    // sanitized form "a_b" matches through the normalized comparison
    let settings = test_settings(vec![Snippet::new(
        "Legacy".to_string(),
        "a=b".to_string(),
        "expanded".to_string(),
        SnippetType::Static,
        "Test".to_string(),
    )]);
    let engine = ReplacementEngine::new(settings);
    let result = engine.check_for_replacements("typed a_b");
    assert!(result.is_some());
    let (replacement, trigger_len) = result.unwrap();
    assert_eq!(replacement, "expanded");
    assert_eq!(trigger_len, 3);
}

#[test]
fn test_disabled_engine_and_snippets() {
    let snippet = Snippet::new(
        "S".to_string(),
        "kw".to_string(),
        "out".to_string(),
        SnippetType::Static,
        "Test".to_string(),
    );
    let mut disabled_snippet = snippet.clone();
    disabled_snippet.enabled = false;

    let mut settings = test_settings(vec![snippet]);
    settings.enabled = false;
    let engine = ReplacementEngine::new(settings);
    assert!(engine.check_for_replacements("kw").is_none());

    let settings = test_settings(vec![disabled_snippet]);
    let engine = ReplacementEngine::new(settings);
    assert!(engine.check_for_replacements("kw").is_none());
}

#[test]
fn test_dynamic_snippet_resolves_time() {
    let settings = test_settings(vec![Snippet::new(
        "Time".to_string(),
        "ttime".to_string(),
        "HH:mm:ss".to_string(),
        SnippetType::Dynamic,
        "Time".to_string(),
    )]);
    let engine = ReplacementEngine::new(settings);
    let (replacement, trigger_len) = engine.check_for_replacements("now ttime").unwrap();
    assert_eq!(trigger_len, 5);
    assert_eq!(replacement.len(), 8);
    let chars: Vec<char> = replacement.chars().collect();
    assert_eq!(chars[2], ':');
    assert_eq!(chars[5], ':');
}

#[test]
fn test_hook_dispatch_flow() {
    let settings = test_settings(vec![Snippet::new(
        "Test Snippet 1".to_string(),
        "test1".to_string(),
        "Replacement 1".to_string(),
        SnippetType::Static,
        "Test".to_string(),
    )]);
    let mut hook = KeyboardHook::new(KeyboardState::new(100), ReplacementEngine::new(settings));
    assert!(!hook.installed);
    hook.start();
    assert!(hook.installed);

    // an injected event is discarded
    assert!(hook.on_key_event(0x0100, 0x54, true).is_none());
    assert_eq!(hook.keyboard_state.get_buffer(), "");

    // type "test" - no match yet
    for vk in [0x54u32, 0x45, 0x53, 0x54] {
        assert!(hook.on_key_event(0x0100, vk, false).is_none());
    }
    assert_eq!(hook.keyboard_state.get_buffer(), "test");

    // the final "1" completes the keyword: a session comes back and the
    // buffer is cleared so the spent keyword cannot trigger again
    let session = hook.on_key_event(0x0100, 0x31, false);
    let session = session.expect("keyword should match");
    assert_eq!(session.trigger_len, 5);
    let text: String = session.text.iter().collect();
    assert_eq!(text, "Replacement 1");
    assert_eq!(hook.keyboard_state.get_buffer(), "");

    hook.stop();
    assert!(!hook.installed);
}
