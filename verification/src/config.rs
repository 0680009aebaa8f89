//! The in-memory configuration store. Loading and saving the settings file
//! happens outside the library; this type keeps the current settings and
//! guarantees that every keyword it holds is sanitized.

pub mod settings;

pub use settings::Settings;

use vstd::prelude::*;

use settings::{sanitize_snippets, snippets_sanitized};

verus! {

/// Holds the current settings, with every snippet keyword sanitized.
#[derive(Debug, Clone)]
pub struct ConfigManager {
    settings: Settings,
}

impl ConfigManager {
    /// The settings this manager holds.
    pub closed spec fn spec_settings(&self) -> Settings {
        self.settings
    }

    /// Takes over freshly loaded settings, sanitizing every keyword as the
    /// load path does.
    pub fn new(settings: Settings) -> (r: Self)
        ensures
            r.spec_settings().enabled == settings.enabled,
            r.spec_settings().start_with_system == settings.start_with_system,
            r.spec_settings().toggle_hotkey == settings.toggle_hotkey,
            r.spec_settings().open_window_hotkey == settings.open_window_hotkey,
            snippets_sanitized(settings.snippets@, r.spec_settings().snippets@),
    {
        let Settings { enabled, snippets, start_with_system, toggle_hotkey, open_window_hotkey } =
            settings;
        let snippets = sanitize_snippets(&snippets);
        Self {
            settings: Settings {
                enabled,
                snippets,
                start_with_system,
                toggle_hotkey,
                open_window_hotkey,
            },
        }
    }

    /// Read access to the current settings.
    pub fn get_settings(&self) -> (r: &Settings)
        ensures
            *r == self.spec_settings(),
    {
        &self.settings
    }

    /// Replaces the settings, sanitizing every keyword first. The caller is
    /// in charge of persisting what this manager then holds.
    pub fn update_settings(&mut self, settings: Settings)
        ensures
            final(self).spec_settings().enabled == settings.enabled,
            final(self).spec_settings().start_with_system == settings.start_with_system,
            final(self).spec_settings().toggle_hotkey == settings.toggle_hotkey,
            final(self).spec_settings().open_window_hotkey == settings.open_window_hotkey,
            snippets_sanitized(settings.snippets@, final(self).spec_settings().snippets@),
    {
        let Settings { enabled, snippets, start_with_system, toggle_hotkey, open_window_hotkey } =
            settings;
        let snippets = sanitize_snippets(&snippets);
        self.settings = Settings {
            enabled,
            snippets,
            start_with_system,
            toggle_hotkey,
            open_window_hotkey,
        };
    }
}

} // verus!
