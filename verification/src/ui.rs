//! The state behind the settings window: theme, tab selection, snippet
//! selection, keyword validation, and the tray menu's decisions. The
//! drawing itself happens outside the library.

use vstd::prelude::*;

use crate::config::Settings;

verus! {

/// Light or dark theme.
#[derive(Debug, Clone, Copy, PartialEq, Eq, Structural)]
pub enum ThemeMode {
    /// Light visuals.
    Light,
    /// Dark visuals.
    Dark,
}

/// The other theme.
pub open spec fn toggled_theme(m: ThemeMode) -> ThemeMode {
    match m {
        ThemeMode::Light => ThemeMode::Dark,
        ThemeMode::Dark => ThemeMode::Light,
    }
}

impl ThemeMode {
    /// Switches to the other theme.
    pub fn toggle(&mut self)
        ensures
            *final(self) == toggled_theme(*old(self)),
    {
        *self = match self {
            ThemeMode::Light => ThemeMode::Dark,
            ThemeMode::Dark => ThemeMode::Light,
        };
    }
}

/// The tabs of the settings window.
#[derive(Debug, Clone, Copy, PartialEq, Eq, Structural)]
pub enum Tab {
    /// The snippet list.
    Snippets,
    /// The application settings.
    Settings,
    /// The snippet editor.
    Editor,
}

/// The window's state: the settings being shown and the view selection.
#[derive(Debug)]
pub struct AppUiState {
    /// The settings shown and edited in the window.
    pub settings: Settings,
    /// The active theme.
    pub theme: ThemeMode,
    /// The selected tab.
    pub selected_tab: Tab,
    /// The index of the snippet selected for editing, if any.
    pub selected_snippet_index: Option<usize>,
}

impl AppUiState {
    /// Fresh window state: dark theme, snippet list shown, nothing
    /// selected.
    pub fn new(settings: Settings) -> (r: Self)
        ensures
            r.settings == settings,
            r.theme == ThemeMode::Dark,
            r.selected_tab == Tab::Snippets,
            r.selected_snippet_index is None,
    {
        Self {
            settings,
            theme: ThemeMode::Dark,
            selected_tab: Tab::Snippets,
            selected_snippet_index: None,
        }
    }

    /// Selects a tab.
    pub fn switch_tab(&mut self, tab: Tab)
        ensures
            final(self).selected_tab == tab,
            final(self).settings == old(self).settings,
            final(self).theme == old(self).theme,
            final(self).selected_snippet_index == old(self).selected_snippet_index,
    {
        self.selected_tab = tab;
    }

    /// Switches to the other theme.
    pub fn toggle_theme(&mut self)
        ensures
            final(self).theme == toggled_theme(old(self).theme),
            final(self).settings == old(self).settings,
            final(self).selected_tab == old(self).selected_tab,
            final(self).selected_snippet_index == old(self).selected_snippet_index,
    {
        self.theme.toggle();
    }
}

/// The settings window: wraps its state.
#[derive(Debug)]
pub struct AppUi {
    state: AppUiState,
}

impl AppUi {
    /// The wrapped state.
    pub closed spec fn spec_state(&self) -> AppUiState {
        self.state
    }

    /// Wraps window state.
    pub fn new(state: AppUiState) -> (r: Self)
        ensures
            r.spec_state() == state,
    {
        Self { state }
    }

    /// Read access to the settings the window shows.
    pub fn settings(&self) -> (r: &Settings)
        ensures
            *r == self.spec_state().settings,
    {
        &self.state.settings
    }
}

/// A keyword is valid when it holds none of the characters the
/// persistence format reserves (`=`, `;`, `,`).
pub open spec fn keyword_valid(s: Seq<char>) -> bool {
    forall|i: int| 0 <= i < s.len() ==> !(s[i] == '=' || s[i] == ';' || s[i] == ',')
}

/// Checks a keyword for the reserved characters `=`, `;` and `,`.
pub fn validate_keyword(keyword: &str) -> (r: bool)
    ensures
        r == keyword_valid(keyword@),
{
    let n = keyword.unicode_len();
    let mut i: usize = 0;
    while i < n
        invariant
            i <= n,
            n == keyword@.len(),
            forall|j: int| 0 <= j < i ==> !(keyword@[j] == '=' || keyword@[j] == ';'
                || keyword@[j] == ','),
        decreases n - i,
    {
        let c = keyword.get_char(i);
        if c == '=' || c == ';' || c == ',' {
            return false;
        }
        i = i + 1;
    }
    true
}

/// What a tray menu choice asks the application to do.
#[derive(Debug, Clone, Copy, PartialEq, Eq, Structural)]
pub enum TrayMenuAction {
    /// Show the settings window.
    ShowWindow,
    /// Flip the engine's master switch.
    ToggleEnabled,
    /// Quit the application.
    Exit,
    /// An index with no meaning (such as the separator).
    Ignore,
}

/// Maps a tray menu item index to its action: item 0 shows the window,
/// item 1 toggles the engine, item 3 (past the separator) exits.
pub fn tray_menu_action(index: usize) -> (r: TrayMenuAction)
    ensures
        index == 0 ==> r == TrayMenuAction::ShowWindow,
        index == 1 ==> r == TrayMenuAction::ToggleEnabled,
        index == 3 ==> r == TrayMenuAction::Exit,
        !(index == 0 || index == 1 || index == 3) ==> r == TrayMenuAction::Ignore,
{
    if index == 0 {
        TrayMenuAction::ShowWindow
    } else if index == 1 {
        TrayMenuAction::ToggleEnabled
    } else if index == 3 {
        TrayMenuAction::Exit
    } else {
        TrayMenuAction::Ignore
    }
}

} // verus!
