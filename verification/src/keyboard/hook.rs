//! The hook dispatcher: the decision logic behind the system-wide keyboard
//! callback, and the two-state installed/uninstalled life cycle of the
//! hook registration.
//!
//! The OS callback itself lives outside the library; on every key event it
//! hands the raw message, the virtual key code and the injected flag to
//! [`KeyboardHook::on_key_event`], which discards self-injected events,
//! feeds the buffer, asks the matcher, and on a hit clears the buffer and
//! hands back the synthesis session to run.

use vstd::prelude::*;

use crate::keyboard::{event_model, KeyboardState};
use crate::replacement::synth::{SynthPhase, SynthSession};
use crate::replacement::{first_match, match_result_ok, ReplacementEngine};

verus! {

/// The dispatcher: owns the keyword buffer and the replacement engine, and
/// tracks whether the OS hook registration is in place.
#[derive(Debug)]
pub struct KeyboardHook {
    /// The rolling keyword buffer the callback feeds.
    pub keyboard_state: KeyboardState,
    /// The matcher the callback consults.
    pub replacement_engine: ReplacementEngine,
    /// Whether the OS hook registration is in place.
    pub installed: bool,
}

impl KeyboardHook {
    /// Creates the dispatcher, not yet installed.
    pub fn new(keyboard_state: KeyboardState, replacement_engine: ReplacementEngine) -> (r: Self)
        ensures
            r.keyboard_state == keyboard_state,
            r.replacement_engine == replacement_engine,
            !r.installed,
    {
        Self { keyboard_state, replacement_engine, installed: false }
    }

    /// Marks the hook installed. The caller registers the OS callback
    /// first; installation happens at most once.
    pub fn start(&mut self)
        requires
            !old(self).installed,
        ensures
            final(self).installed,
            final(self).keyboard_state == old(self).keyboard_state,
            final(self).replacement_engine == old(self).replacement_engine,
    {
        self.installed = true;
    }

    /// Marks the hook uninstalled. The caller unregisters the OS callback;
    /// teardown happens exactly once, out of the installed state.
    pub fn stop(&mut self)
        requires
            old(self).installed,
        ensures
            !final(self).installed,
            final(self).keyboard_state == old(self).keyboard_state,
            final(self).replacement_engine == old(self).replacement_engine,
    {
        self.installed = false;
    }

    /// Hands the engine new settings to match against.
    pub fn update_settings(&mut self, settings: crate::config::Settings)
        ensures
            final(self).replacement_engine.spec_settings() == settings,
            final(self).keyboard_state == old(self).keyboard_state,
            final(self).installed == old(self).installed,
    {
        self.replacement_engine.set_settings(settings);
    }

    /// Empties the keyword buffer, as the caller does defensively after a
    /// failed synthesis.
    pub fn clear_buffer(&mut self)
        ensures
            final(self).keyboard_state.wf(),
            final(self).keyboard_state@ == Seq::<char>::empty(),
            final(self).keyboard_state.capacity() == old(self).keyboard_state.capacity(),
            final(self).replacement_engine == old(self).replacement_engine,
            final(self).installed == old(self).installed,
    {
        self.keyboard_state.clear_buffer();
    }

    /// One hook callback invocation: a self-injected event is discarded;
    /// any other key event feeds the buffer, and once at least two
    /// characters are buffered the matcher runs on the candidate. On a hit
    /// the buffer is cleared — so the spent keyword cannot trigger again —
    /// and the synthesis session for the replacement is handed back.
    pub fn on_key_event(&mut self, msg: u32, vk_code: u32, injected: bool) -> (r: Option<
        SynthSession,
    >)
        requires
            old(self).keyboard_state.wf(),
        ensures
            final(self).keyboard_state.wf(),
            final(self).keyboard_state.capacity() == old(self).keyboard_state.capacity(),
            final(self).replacement_engine == old(self).replacement_engine,
            final(self).installed == old(self).installed,
            injected ==> r is None && final(self).keyboard_state == old(self).keyboard_state,
            !injected ==> ({
                let cand = event_model(
                    old(self).keyboard_state.capacity(),
                    old(self).keyboard_state@,
                    msg,
                    vk_code,
                );
                let stg = old(self).replacement_engine.spec_settings();
                let hit = cand.len() >= 2 && stg.enabled && first_match(
                    cand,
                    stg.snippets@,
                ) is Some;
                &&& (r is Some <==> hit)
                &&& (hit ==> final(self).keyboard_state@ == Seq::<char>::empty())
                &&& (!hit ==> final(self).keyboard_state@ == cand)
                &&& (r matches Some(s) ==> s.wf() && s.phase == SynthPhase::Init
                    && match_result_ok(cand, stg.snippets@, s.text@, s.trigger_len as int))
            }),
    {
        if injected {
            return None;
        }
        self.keyboard_state.process_key_event(msg, vk_code);
        if self.keyboard_state.should_check_replacement() {
            let keyword = self.keyboard_state.get_keyword_candidate();
            match self.replacement_engine.try_replace(keyword.as_str()) {
                Some(session) => {
                    self.keyboard_state.clear_buffer();
                    Some(session)
                },
                None => None,
            }
        } else {
            None
        }
    }
}

} // verus!
