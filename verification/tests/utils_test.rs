use swifttype::config::Settings;
use swifttype::ui::{tray_menu_action, AppUi, AppUiState, Tab, ThemeMode, TrayMenuAction};
use swifttype::utils::{check_should_exit, find_conflicting_tools, windows_to_wide};

#[test]
fn test_check_should_exit() {
    assert!(check_should_exit(Some(true)));
    assert!(!check_should_exit(Some(false)));
    assert!(!check_should_exit(None));
}

#[test]
fn test_find_conflicting_tools() {
    let names = vec![
        "notepad.exe".to_string(),
        "autohotkey.EXE".to_string(),
        "explorer.exe".to_string(),
        "PhraseExpress.exe".to_string(),
    ];
    let found = find_conflicting_tools(&names);
    assert_eq!(found, vec!["autohotkey.EXE".to_string(), "PhraseExpress.exe".to_string()]);

    let none = find_conflicting_tools(&vec!["calc.exe".to_string()]);
    assert!(none.is_empty());
}

#[test]
fn test_windows_to_wide() {
    assert_eq!(windows_to_wide("ab"), vec![0x61u16, 0x62, 0]);
    assert_eq!(windows_to_wide(""), vec![0u16]);
}

#[test]
fn test_windows_to_wide_surrogate_pair() {
    // a character outside the basic plane becomes a surrogate pair
    assert_eq!(windows_to_wide("\u{1F600}"), vec![0xD83Du16, 0xDE00, 0]);
}

#[test]
fn test_tray_menu_action() {
    assert_eq!(tray_menu_action(0), TrayMenuAction::ShowWindow);
    assert_eq!(tray_menu_action(1), TrayMenuAction::ToggleEnabled);
    assert_eq!(tray_menu_action(2), TrayMenuAction::Ignore);
    assert_eq!(tray_menu_action(3), TrayMenuAction::Exit);
    assert_eq!(tray_menu_action(7), TrayMenuAction::Ignore);
}

#[test]
fn test_theme_toggle() {
    let mut theme = ThemeMode::Dark;
    theme.toggle();
    assert_eq!(theme, ThemeMode::Light);
    theme.toggle();
    assert_eq!(theme, ThemeMode::Dark);
}

#[test]
fn test_ui_state() {
    let mut state = AppUiState::new(Settings::default());
    assert_eq!(state.theme, ThemeMode::Dark);
    assert_eq!(state.selected_tab, Tab::Snippets);
    assert!(state.selected_snippet_index.is_none());
    state.switch_tab(Tab::Settings);
    assert_eq!(state.selected_tab, Tab::Settings);
    state.toggle_theme();
    assert_eq!(state.theme, ThemeMode::Light);

    let ui = AppUi::new(state);
    assert!(ui.settings().enabled);
}

#[test]
fn test_sample() {
    assert_eq!(2 + 2, 4);
}
