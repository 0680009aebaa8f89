//! The replacement engine: finds the first enabled snippet whose keyword
//! stands at the end of the typed buffer and resolves its replacement text.
//!
//! A snippet matches directly when the buffer ends with its keyword, and as
//! a fallback when the normalized buffer ends with the normalized keyword,
//! so that keywords sanitized after having been typed with now-forbidden
//! characters still trigger.

pub mod formatter;
pub mod synth;

use vstd::prelude::*;

use crate::config::Settings;
use crate::config::settings::{Snippet, SnippetType};
use crate::text::{chars_end_with, normalize_chars, normalize_seq, seq_ends_with, str_to_chars};
use formatter::{format_dynamic_content, spec_format, LocalTime};
use synth::{SynthPhase, SynthSession};

verus! {

/// The snippet is enabled and its keyword stands at the end of the
/// candidate, directly or after normalizing both sides.
pub open spec fn snippet_matches(cand: Seq<char>, sn: Snippet) -> bool {
    &&& sn.enabled
    &&& (seq_ends_with(cand, sn.keyword@) || seq_ends_with(
        normalize_seq(cand),
        normalize_seq(sn.keyword@),
    ))
}

/// The index of the first snippet that matches the candidate, if any.
pub open spec fn first_match(cand: Seq<char>, snips: Seq<Snippet>) -> Option<int>
    decreases snips.len(),
{
    if snips.len() == 0 {
        None
    } else if snippet_matches(cand, snips[0]) {
        Some(0)
    } else {
        match first_match(cand, snips.skip(1)) {
            Some(j) => Some(j + 1),
            None => None,
        }
    }
}

/// Matching picks the first matching enabled snippet in list order: the
/// result is a matching snippet that no earlier snippet beats, it exists
/// whenever any snippet matches, and it is a function of the candidate and
/// the list alone.
pub proof fn lemma_match_picks_first(cand: Seq<char>, snips: Seq<Snippet>)
    ensures
        match first_match(cand, snips) {
            Some(i) => 0 <= i < snips.len() && snippet_matches(cand, snips[i]) && (forall|j: int|
                0 <= j < i ==> !snippet_matches(cand, snips[j])),
            None => forall|j: int| 0 <= j < snips.len() ==> !snippet_matches(cand, snips[j]),
        },
    decreases snips.len(),
{
    if snips.len() > 0 && !snippet_matches(cand, snips[0]) {
        lemma_match_picks_first(cand, snips.skip(1));
        match first_match(cand, snips.skip(1)) {
            Some(k) => {
                assert(snippet_matches(cand, snips[k + 1]));
                assert forall|j: int| 0 <= j < k + 1 implies !snippet_matches(cand, snips[j]) by {
                    if j > 0 {
                        assert(snips[j] == snips.skip(1)[j - 1]);
                    }
                }
            },
            None => {
                assert forall|j: int| 0 <= j < snips.len() implies !snippet_matches(
                    cand,
                    snips[j],
                ) by {
                    if j > 0 {
                        assert(snips[j] == snips.skip(1)[j - 1]);
                    }
                }
            },
        }
    }
}

/// Conversely: an index that matches, with none matching before it, is the
/// index that `first_match` picks.
pub proof fn lemma_first_match_at(cand: Seq<char>, snips: Seq<Snippet>, i: int)
    requires
        0 <= i < snips.len(),
        snippet_matches(cand, snips[i]),
        forall|j: int| 0 <= j < i ==> !snippet_matches(cand, snips[j]),
    ensures
        first_match(cand, snips) == Some(i),
    decreases snips.len(),
{
    if i > 0 {
        lemma_first_match_at(cand, snips.skip(1), i - 1);
    }
}

/// No matching snippet means no match.
pub proof fn lemma_first_match_none(cand: Seq<char>, snips: Seq<Snippet>)
    requires
        forall|j: int| 0 <= j < snips.len() ==> !snippet_matches(cand, snips[j]),
    ensures
        first_match(cand, snips) is None,
    decreases snips.len(),
{
    if snips.len() > 0 {
        lemma_first_match_none(cand, snips.skip(1));
    }
}

/// Decides `snippet_matches` for one snippet. `cand_norm` must be the
/// normalized candidate, computed once by the caller.
fn snippet_matches_exec(cand: &Vec<char>, cand_norm: &Vec<char>, sn: &Snippet) -> (r: bool)
    requires
        cand_norm@ == normalize_seq(cand@),
    ensures
        r == snippet_matches(cand@, *sn),
{
    if !sn.enabled {
        return false;
    }
    let kw = str_to_chars(sn.keyword.as_str());
    if chars_end_with(cand, &kw) {
        return true;
    }
    let kw_norm = normalize_chars(&kw);
    chars_end_with(cand_norm, &kw_norm)
}

/// What a successful match hands back: the resolved replacement text and
/// the character count of the matched keyword (the number of characters to
/// erase).
pub open spec fn match_result_ok(
    buffer: Seq<char>,
    snips: Seq<Snippet>,
    text: Seq<char>,
    trigger_len: int,
) -> bool {
    &&& first_match(buffer, snips) matches Some(i)
    &&& {
        let sn = snips[first_match(buffer, snips)->Some_0];
        &&& trigger_len == sn.keyword@.len()
        &&& (sn.snippet_type == SnippetType::Static ==> text == sn.content@)
        &&& (sn.snippet_type == SnippetType::Dynamic ==> exists|t: LocalTime|
            t.wf() && text == spec_format(sn.content@, t))
    }
}

/// The text-replacement engine: holds the settings and answers match
/// queries against the typed buffer.
#[derive(Debug)]
pub struct ReplacementEngine {
    settings: Settings,
}

impl ReplacementEngine {
    /// The settings the engine currently matches against.
    pub closed spec fn spec_settings(&self) -> Settings {
        self.settings
    }

    /// Creates an engine over the given settings.
    pub fn new(settings: Settings) -> (r: Self)
        ensures
            r.spec_settings() == settings,
    {
        Self { settings }
    }

    /// Read access to the settings the engine matches against.
    pub fn settings(&self) -> (r: &Settings)
        ensures
            *r == self.spec_settings(),
    {
        &self.settings
    }

    /// Replaces the settings the engine matches against.
    pub fn set_settings(&mut self, settings: Settings)
        ensures
            final(self).spec_settings() == settings,
    {
        self.settings = settings;
    }

    /// Finds the first enabled snippet whose keyword ends the buffer and
    /// resolves its replacement text: the content itself for a static
    /// snippet, the content expanded against the wall clock for a dynamic
    /// one. Returns the text together with the character count of the
    /// matched keyword; returns nothing exactly when the engine is disabled
    /// or no snippet matches.
    pub fn check_for_replacements(&self, buffer: &str) -> (r: Option<(String, usize)>)
        ensures
            r is Some <==> (self.spec_settings().enabled && first_match(
                buffer@,
                self.spec_settings().snippets@,
            ) is Some),
            r matches Some(p) ==> match_result_ok(
                buffer@,
                self.spec_settings().snippets@,
                p.0@,
                p.1 as int,
            ),
    {
        if !self.settings.enabled {
            return None;
        }
        let cand = str_to_chars(buffer);
        let cand_norm = normalize_chars(&cand);
        let n = self.settings.snippets.len();
        let mut i: usize = 0;
        while i < n
            invariant
                self.spec_settings().enabled,
                cand@ == buffer@,
                cand_norm@ == normalize_seq(cand@),
                i <= n,
                n == self.spec_settings().snippets@.len(),
                forall|j: int| 0 <= j < i ==> !snippet_matches(
                    buffer@,
                    self.spec_settings().snippets@[j],
                ),
            decreases n - i,
        {
            let sn = &self.settings.snippets[i];
            if snippet_matches_exec(&cand, &cand_norm, sn) {
                proof {
                    lemma_first_match_at(buffer@, self.spec_settings().snippets@, i as int);
                }
                let replacement = match sn.snippet_type {
                    SnippetType::Static => sn.content.clone(),
                    SnippetType::Dynamic => format_dynamic_content(sn.content.as_str()),
                };
                let trigger_len = sn.keyword.as_str().unicode_len();
                return Some((replacement, trigger_len));
            }
            i = i + 1;
        }
        proof {
            lemma_first_match_none(buffer@, self.spec_settings().snippets@);
        }
        None
    }

    /// Prepares the replacement for the buffer's current candidate: on a
    /// match, a fresh synthesis session that will erase the matched keyword
    /// and insert the resolved text. The caller runs the session's
    /// directives and reports their outcomes back to it.
    pub fn try_replace(&self, buffer: &str) -> (r: Option<SynthSession>)
        ensures
            r is Some <==> (self.spec_settings().enabled && first_match(
                buffer@,
                self.spec_settings().snippets@,
            ) is Some),
            r matches Some(s) ==> s.wf() && s.phase == SynthPhase::Init && !s.ime_was_open
                && match_result_ok(
                buffer@,
                self.spec_settings().snippets@,
                s.text@,
                s.trigger_len as int,
            ),
    {
        match self.check_for_replacements(buffer) {
            Some((text, trigger_len)) => {
                let chars = str_to_chars(text.as_str());
                Some(SynthSession::new(chars, trigger_len))
            },
            None => None,
        }
    }
}

} // verus!
