//! The snippet and settings data model, and the keyword sanitization that
//! keeps stored keywords free of the characters the persistence format
//! reserves.

use vstd::prelude::*;

use crate::text::{normalize, normalize_seq};

verus! {

/// Whether a snippet's content is inserted verbatim or formatted at
/// replacement time.
#[derive(Debug, Clone, Copy, PartialEq, Eq, Structural)]
pub enum SnippetType {
    /// Fixed text, inserted as it stands.
    Static,
    /// A date/time template, expanded when the replacement happens.
    Dynamic,
}

/// A configured pairing of a trigger keyword with its replacement content.
#[derive(Debug, Clone)]
pub struct Snippet {
    /// Display name.
    pub name: String,
    /// The trigger: the character sequence that, once typed, is replaced.
    pub keyword: String,
    /// The replacement text, or a date/time template for dynamic snippets.
    pub content: String,
    /// Static or dynamic content.
    pub snippet_type: SnippetType,
    /// Display category.
    pub category: String,
    /// Disabled snippets are never matched.
    pub enabled: bool,
}

impl Snippet {
    /// Creates an enabled snippet from its parts.
    pub fn new(
        name: String,
        keyword: String,
        content: String,
        snippet_type: SnippetType,
        category: String,
    ) -> (r: Self)
        ensures
            r.name == name,
            r.keyword == keyword,
            r.content == content,
            r.snippet_type == snippet_type,
            r.category == category,
            r.enabled,
    {
        Self { name, keyword, content, snippet_type, category, enabled: true }
    }
}

/// A global hotkey: a modifier mask together with a key code.
#[derive(Debug, Clone, Copy, PartialEq, Eq, Structural)]
pub struct Hotkey {
    /// Modifier mask (Ctrl, Alt, Shift, Win).
    pub modifiers: u32,
    /// Virtual key code.
    pub key_code: u32,
}

/// The engine's configuration: the master switch and the snippet list.
#[derive(Debug, Clone)]
pub struct Settings {
    /// Master switch: when false, nothing is matched.
    pub enabled: bool,
    /// The snippets, matched in declaration order.
    pub snippets: Vec<Snippet>,
    /// Whether the application registers itself to start with the system.
    pub start_with_system: bool,
    /// Hotkey that toggles the engine, if configured.
    pub toggle_hotkey: Option<Hotkey>,
    /// Hotkey that opens the settings window, if configured.
    pub open_window_hotkey: Option<Hotkey>,
}

/// `s` is `orig` with its keyword normalized and all else kept.
pub open spec fn snippet_sanitized(orig: Snippet, s: Snippet) -> bool {
    &&& s.name@ == orig.name@
    &&& s.keyword@ == normalize_seq(orig.keyword@)
    &&& s.content@ == orig.content@
    &&& s.snippet_type == orig.snippet_type
    &&& s.category@ == orig.category@
    &&& s.enabled == orig.enabled
}

/// `out` is `snips` with every keyword normalized and all else kept.
pub open spec fn snippets_sanitized(snips: Seq<Snippet>, out: Seq<Snippet>) -> bool {
    &&& out.len() == snips.len()
    &&& forall|i: int| 0 <= i < snips.len() ==> snippet_sanitized(snips[i], #[trigger] out[i])
}

/// Returns the snippet list with every keyword normalized (`=`, `;`, `,`
/// replaced by `_`) and everything else unchanged.
pub fn sanitize_snippets(snips: &Vec<Snippet>) -> (out: Vec<Snippet>)
    ensures
        snippets_sanitized(snips@, out@),
{
    let mut out: Vec<Snippet> = Vec::new();
    let mut i: usize = 0;
    while i < snips.len()
        invariant
            i <= snips@.len(),
            out@.len() == i,
            forall|j: int| 0 <= j < i ==> snippet_sanitized(snips@[j], #[trigger] out@[j]),
        decreases snips@.len() - i,
    {
        let sn = &snips[i];
        out.push(Snippet {
            name: sn.name.clone(),
            keyword: normalize(sn.keyword.as_str()),
            content: sn.content.clone(),
            snippet_type: sn.snippet_type,
            category: sn.category.clone(),
            enabled: sn.enabled,
        });
        i = i + 1;
    }
    out
}

/// The default configuration: the engine enabled, with the stock date,
/// time, timestamp and signature snippets.
pub open spec fn is_default_snippets(s: Seq<Snippet>) -> bool {
    &&& s.len() == 5
    &&& s[0].name@ == "Today's Date (YYYY/MM/DD)"@ && s[0].keyword@ == "ddate"@ && s[0].content@
        == "yyyy/MM/dd"@ && s[0].snippet_type == SnippetType::Dynamic && s[0].category@ == "Date"@
        && s[0].enabled
    &&& s[1].name@ == "Today's Date (YYYYMMDD)"@ && s[1].keyword@ == "yyyymmdd"@ && s[1].content@
        == "yyyyMMdd"@ && s[1].snippet_type == SnippetType::Dynamic && s[1].category@ == "Date"@
        && s[1].enabled
    &&& s[2].name@ == "Current Time"@ && s[2].keyword@ == "ttime"@ && s[2].content@ == "HH:mm:ss"@
        && s[2].snippet_type == SnippetType::Dynamic && s[2].category@ == "Time"@ && s[2].enabled
    &&& s[3].name@ == "Timestamp"@ && s[3].keyword@ == "tstamp"@ && s[3].content@
        == "yyyy-MM-dd HH:mm:ss"@ && s[3].snippet_type == SnippetType::Dynamic && s[3].category@
        == "Date"@ && s[3].enabled
    &&& s[4].name@ == "Signature"@ && s[4].keyword@ == "sig"@ && s[4].content@
        == "Best regards,\n\nJohn Doe\nEmail: example@example.com\nPhone: 555-123-4567"@
        && s[4].snippet_type == SnippetType::Static && s[4].category@ == "Template"@
        && s[4].enabled
}

impl Default for Settings {
    /// The stock configuration the application starts from.
    fn default() -> (r: Self)
        ensures
            r.enabled,
            !r.start_with_system,
            r.toggle_hotkey is None,
            r.open_window_hotkey is None,
            is_default_snippets(r.snippets@),
    {
        let mut snippets: Vec<Snippet> = Vec::new();
        snippets.push(Snippet::new(
            "Today's Date (YYYY/MM/DD)".to_owned(),
            "ddate".to_owned(),
            "yyyy/MM/dd".to_owned(),
            SnippetType::Dynamic,
            "Date".to_owned(),
        ));
        snippets.push(Snippet::new(
            "Today's Date (YYYYMMDD)".to_owned(),
            "yyyymmdd".to_owned(),
            "yyyyMMdd".to_owned(),
            SnippetType::Dynamic,
            "Date".to_owned(),
        ));
        snippets.push(Snippet::new(
            "Current Time".to_owned(),
            "ttime".to_owned(),
            "HH:mm:ss".to_owned(),
            SnippetType::Dynamic,
            "Time".to_owned(),
        ));
        snippets.push(Snippet::new(
            "Timestamp".to_owned(),
            "tstamp".to_owned(),
            "yyyy-MM-dd HH:mm:ss".to_owned(),
            SnippetType::Dynamic,
            "Date".to_owned(),
        ));
        snippets.push(Snippet::new(
            "Signature".to_owned(),
            "sig".to_owned(),
            "Best regards,\n\nJohn Doe\nEmail: example@example.com\nPhone: 555-123-4567"
                .to_owned(),
            SnippetType::Static,
            "Template".to_owned(),
        ));
        Settings {
            enabled: true,
            snippets,
            start_with_system: false,
            toggle_hotkey: None,
            open_window_hotkey: None,
        }
    }
}

} // verus!
