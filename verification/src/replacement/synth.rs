//! The input-synthesis planner.
//!
//! Erasing a matched keyword and injecting its replacement happens through
//! synthetic OS input events, paced by deliberate delays and backed by a
//! chain of fallback strategies. The decisions live here, verified: a
//! [`SynthSession`] is a state machine that, fed the outcome of each
//! performed action, hands back the next directive. The process around the
//! library runs the loop: it executes each directive (injects the key
//! events, sleeps, touches the clipboard, queries the IME) and reports the
//! outcome back.
//!
//! The strategy chain follows the engine's policy: a pre-delay tuned to the
//! keyword length, a selection-based overwrite for the failure-prone
//! keyword lengths (retried once before falling back), backspace erasure
//! with paced key pairs, direct character injection for short replacements
//! (with the IME suspended around it), and a clipboard paste with a primary
//! and an alternate shortcut, saving and restoring the clipboard around it.
//! Whatever the outcome, the session releases every modifier key before it
//! finishes. The exact millisecond values are tunable pacing, not load-
//! bearing logic.

use vstd::prelude::*;

use crate::text::chars_to_string;

verus! {

/// A key that the synthesizer may press or release.
#[derive(Debug, Clone, Copy, PartialEq, Eq, Structural)]
pub enum SynthKey {
    /// Erases one character.
    Backspace,
    /// Modifier: Ctrl.
    Control,
    /// Modifier: Shift.
    Shift,
    /// Modifier: Alt.
    Alt,
    /// Modifier: left Win.
    WinLeft,
    /// Modifier: right Win.
    WinRight,
    /// The V key, for the primary paste shortcut.
    KeyV,
    /// The Insert key, for the alternate paste shortcut.
    Insert,
    /// Anchors the caret at the line start.
    Home,
    /// Anchors the caret at the line end.
    End,
    /// Extends the selection one character back.
    Left,
}

/// One low-level step of a plan: a paced wait or one injected event.
#[derive(Debug, Clone, Copy, PartialEq, Eq, Structural)]
pub enum SynthStep {
    /// Wait the given number of milliseconds.
    Sleep(u64),
    /// Inject a key-down event.
    KeyDown(SynthKey),
    /// Inject a key-up event.
    KeyUp(SynthKey),
    /// Inject a Unicode character key-down event, by scalar value.
    CharDown(u32),
    /// Inject a Unicode character key-up event, by scalar value.
    CharUp(u32),
}

/// What the runner reports back after performing a directive.
#[derive(Debug, Clone, Copy, PartialEq, Eq, Structural)]
pub enum SynthEvent {
    /// The directive was carried out in full.
    Completed,
    /// The OS rejected an injected event, or the action failed.
    Rejected,
    /// The clipboard contents were saved.
    ClipboardSaved,
    /// The clipboard could not be accessed.
    ClipboardUnavailable,
    /// The IME reported an open composition.
    ImeOpen,
    /// The IME reported no open composition.
    ImeClosed,
}

/// What the session asks the runner to do next.
#[derive(Debug)]
pub enum SynthDirective {
    /// Perform the steps in order; report `Rejected` if any injection is
    /// refused, else `Completed`.
    Run(Vec<SynthStep>),
    /// Save the current clipboard text for a later restore; report
    /// `ClipboardSaved` or `ClipboardUnavailable`.
    SaveClipboard,
    /// Put this text on the clipboard; report `Completed` or `Rejected`.
    SetClipboardText(String),
    /// Put the saved text back on the clipboard; report `Completed`.
    RestoreClipboard,
    /// Ask the IME whether a composition is open; report `ImeOpen` or
    /// `ImeClosed`.
    QueryIme,
    /// Force the IME composition open or closed; report `Completed` or
    /// `Rejected`.
    SetIme(bool),
    /// The session is over, with the given outcome; nothing more follows.
    Finish(bool),
}

/// Where the session stands: each phase awaits the outcome of the
/// directive that was issued on entering it.
#[derive(Debug, Clone, Copy, PartialEq, Eq, Structural)]
pub enum SynthPhase {
    /// Nothing issued yet.
    Init,
    /// The pre-delay is running.
    AwaitPre,
    /// A selection-based overwrite attempt is running.
    AwaitSelection { attempt: u8 },
    /// The backspace erase plan is running.
    AwaitErase,
    /// The pause between erasure and insertion is running.
    AwaitInterWait,
    /// The IME was asked for its composition state.
    AwaitIme,
    /// The IME was asked to close its composition.
    AwaitImeOff,
    /// The direct character injection is running.
    AwaitDirect,
    /// The IME is being restored; then the session succeeds or falls back
    /// to the clipboard.
    AwaitImeRestore { to_clipboard: bool },
    /// The clipboard contents are being saved.
    AwaitClipSave,
    /// The replacement text is being put on the clipboard.
    AwaitClipSet,
    /// A paste shortcut is running.
    AwaitPaste { alternate: bool },
    /// The pause that lets the paste settle is running.
    AwaitPasteSettle,
    /// The saved clipboard contents are being restored.
    AwaitRestore { ok: bool },
    /// The final modifier release is running; nothing else follows it.
    AwaitFinalReset { ok: bool },
    /// Finished, with the given outcome.
    Done { ok: bool },
}

/// The erase count is clamped to this ceiling, bounding worst-case
/// backspace flooding from a corrupted buffer.
pub const MAX_ERASE: usize = 20;

/// The erase count after clamping.
pub open spec fn clamp_len(n: int) -> int {
    if n > 20 {
        20
    } else {
        n
    }
}

/// Keyword lengths of at most two characters need the longest settling
/// delays.
pub open spec fn is_short_len(n: int) -> bool {
    n <= 2
}

/// The empirically failure-prone keyword length band.
pub open spec fn is_high_risk_len(n: int) -> bool {
    5 <= n <= 9
}

/// The wait before any erasure starts, by clamped keyword length.
pub open spec fn pre_delay_ms(n: int) -> u64 {
    if is_short_len(n) {
        400
    } else if is_high_risk_len(n) {
        300
    } else {
        200
    }
}

/// The wait between erasure and insertion, by clamped keyword length.
pub open spec fn inter_delay_ms(n: int) -> u64 {
    if is_short_len(n) {
        600
    } else if n > 7 {
        400
    } else {
        300
    }
}

/// `n` paced backspace key-down/key-up pairs.
pub open spec fn erase_pairs(n: int, down_ms: u64, between_ms: u64) -> Seq<SynthStep>
    decreases n,
{
    if n <= 0 {
        Seq::empty()
    } else {
        seq![
            SynthStep::KeyDown(SynthKey::Backspace),
            SynthStep::Sleep(down_ms),
            SynthStep::KeyUp(SynthKey::Backspace),
            SynthStep::Sleep(between_ms),
        ] + erase_pairs(n - 1, down_ms, between_ms)
    }
}

/// The whole erase plan for a clamped keyword length: an initial wait, one
/// paced key pair per character, and a final settling wait. Erasing
/// nothing is an empty plan.
pub open spec fn erase_plan(n: int) -> Seq<SynthStep> {
    if n <= 0 {
        Seq::empty()
    } else {
        let short = is_short_len(n);
        let initial: u64 = if short {
            100
        } else if is_high_risk_len(n) {
            50
        } else {
            40
        };
        let fin: u64 = if short {
            200
        } else if is_high_risk_len(n) {
            100
        } else if n > 5 {
            80
        } else {
            60
        };
        seq![SynthStep::Sleep(initial)] + erase_pairs(
            n,
            if short {
                40
            } else {
                20
            },
            if short {
                50
            } else {
                20
            },
        ) + seq![SynthStep::Sleep(fin)]
    }
}

/// One paced down/up pair per character of the replacement text.
pub open spec fn char_pairs(text: Seq<char>, d: u64) -> Seq<SynthStep>
    decreases text.len(),
{
    if text.len() == 0 {
        Seq::empty()
    } else {
        seq![
            SynthStep::CharDown(text[0] as u32),
            SynthStep::Sleep(d),
            SynthStep::CharUp(text[0] as u32),
            SynthStep::Sleep(d),
        ] + char_pairs(text.skip(1), d)
    }
}

/// One unfolding step of `char_pairs` on a non-empty text.
proof fn lemma_char_pairs_unfold(s: Seq<char>, d: u64)
    requires
        s.len() > 0,
    ensures
        char_pairs(s, d) == seq![
            SynthStep::CharDown(s[0] as u32),
            SynthStep::Sleep(d),
            SynthStep::CharUp(s[0] as u32),
            SynthStep::Sleep(d),
        ] + char_pairs(s.skip(1), d),
{
    reveal_with_fuel(char_pairs, 3);
}

/// The direct-injection plan: very short texts get extra settling waits
/// and slower pacing.
pub open spec fn direct_plan(text: Seq<char>) -> Seq<SynthStep> {
    let short = text.len() <= 3;
    let d: u64 = if short {
        30
    } else {
        15
    };
    if short {
        seq![SynthStep::Sleep(100)] + char_pairs(text, d) + seq![SynthStep::Sleep(100)]
    } else {
        char_pairs(text, d)
    }
}

/// The modifier release: one key-up for every modifier, then a settling
/// wait, so no interrupted combination leaves a key logically held down.
pub open spec fn reset_steps() -> Seq<SynthStep> {
    seq![
        SynthStep::KeyUp(SynthKey::Control),
        SynthStep::KeyUp(SynthKey::Shift),
        SynthStep::KeyUp(SynthKey::Alt),
        SynthStep::KeyUp(SynthKey::WinLeft),
        SynthStep::KeyUp(SynthKey::WinRight),
        SynthStep::Sleep(50),
    ]
}

/// The paste plan: a settling wait, a defensive modifier release, another
/// wait, the shortcut (Ctrl+V, or Shift+Insert for the alternate), and a
/// final wait.
pub open spec fn paste_plan(alternate: bool) -> Seq<SynthStep> {
    let combo = if !alternate {
        seq![
            SynthStep::KeyDown(SynthKey::Control),
            SynthStep::KeyDown(SynthKey::KeyV),
            SynthStep::KeyUp(SynthKey::KeyV),
            SynthStep::KeyUp(SynthKey::Control),
        ]
    } else {
        seq![
            SynthStep::KeyDown(SynthKey::Shift),
            SynthStep::KeyDown(SynthKey::Insert),
            SynthStep::KeyUp(SynthKey::Insert),
            SynthStep::KeyUp(SynthKey::Shift),
        ]
    };
    seq![SynthStep::Sleep(150)] + reset_steps() + seq![SynthStep::Sleep(150)] + combo + seq![
        SynthStep::Sleep(100),
    ]
}

/// `n` paced Shift+Left selection extensions.
pub open spec fn left_pairs(n: int) -> Seq<SynthStep>
    decreases n,
{
    if n <= 0 {
        Seq::empty()
    } else {
        seq![
            SynthStep::KeyDown(SynthKey::Left),
            SynthStep::KeyUp(SynthKey::Left),
            SynthStep::Sleep(20),
        ] + left_pairs(n - 1)
    }
}

/// The selection-based overwrite: anchor the caret to the current line
/// (Home then End), select `n` characters backward with Shift+Left, and
/// type the replacement over the selection.
pub open spec fn selection_plan(n: int, text: Seq<char>) -> Seq<SynthStep> {
    seq![
        SynthStep::KeyDown(SynthKey::Home),
        SynthStep::KeyUp(SynthKey::Home),
        SynthStep::KeyDown(SynthKey::End),
        SynthStep::KeyUp(SynthKey::End),
        SynthStep::KeyDown(SynthKey::Shift),
    ] + left_pairs(n) + seq![SynthStep::KeyUp(SynthKey::Shift)] + char_pairs(text, 15)
}

fn erase_pairs_exec(n: usize, down_ms: u64, between_ms: u64) -> (v: Vec<SynthStep>)
    ensures
        v@ == erase_pairs(n as int, down_ms, between_ms),
{
    let mut v: Vec<SynthStep> = Vec::new();
    let mut i: usize = 0;
    while i < n
        invariant
            i <= n,
            erase_pairs(n as int, down_ms, between_ms) == v@ + erase_pairs(
                n - i,
                down_ms,
                between_ms,
            ),
        decreases n - i,
    {
        let ghost v0 = v@;
        v.push(SynthStep::KeyDown(SynthKey::Backspace));
        v.push(SynthStep::Sleep(down_ms));
        v.push(SynthStep::KeyUp(SynthKey::Backspace));
        v.push(SynthStep::Sleep(between_ms));
        i = i + 1;
        proof {
            assert(v@ + erase_pairs(n - i, down_ms, between_ms) =~= v0 + erase_pairs(
                n - i + 1,
                down_ms,
                between_ms,
            ));
        }
    }
    proof {
        assert(v@ =~= v@ + erase_pairs(0, down_ms, between_ms));
    }
    v
}

fn erase_plan_exec(n: usize) -> (v: Vec<SynthStep>)
    ensures
        v@ == erase_plan(n as int),
{
    if n == 0 {
        return Vec::new();
    }
    let short = n <= 2;
    let high_risk = 5 <= n && n <= 9;
    let initial: u64 = if short {
        100
    } else if high_risk {
        50
    } else {
        40
    };
    let fin: u64 = if short {
        200
    } else if high_risk {
        100
    } else if n > 5 {
        80
    } else {
        60
    };
    let mut v: Vec<SynthStep> = Vec::new();
    v.push(SynthStep::Sleep(initial));
    let mut pairs = erase_pairs_exec(
        n,
        if short {
            40
        } else {
            20
        },
        if short {
            50
        } else {
            20
        },
    );
    v.append(&mut pairs);
    v.push(SynthStep::Sleep(fin));
    proof {
        assert(v@ =~= erase_plan(n as int));
    }
    v
}

fn char_pairs_exec(text: &Vec<char>, d: u64) -> (v: Vec<SynthStep>)
    ensures
        v@ == char_pairs(text@, d),
{
    let n = text.len();
    let mut v: Vec<SynthStep> = Vec::new();
    let mut i: usize = 0;
    proof {
        assert(text@.skip(0) =~= text@);
    }
    while i < n
        invariant
            i <= n,
            n == text@.len(),
            char_pairs(text@, d) == v@ + char_pairs(text@.skip(i as int), d),
        decreases n - i,
    {
        let ghost rest = text@.skip(i as int);
        let ghost v0 = v@;
        let u = text[i] as u32;
        v.push(SynthStep::CharDown(u));
        v.push(SynthStep::Sleep(d));
        v.push(SynthStep::CharUp(u));
        v.push(SynthStep::Sleep(d));
        i = i + 1;
        proof {
            lemma_char_pairs_unfold(rest, d);
            assert(rest.skip(1) =~= text@.skip(i as int));
            assert(v@ + char_pairs(text@.skip(i as int), d) =~= v0 + char_pairs(rest, d));
        }
    }
    proof {
        assert(text@.skip(n as int) =~= Seq::<char>::empty());
        assert(v@ =~= v@ + char_pairs(text@.skip(n as int), d));
    }
    v
}

fn direct_plan_exec(text: &Vec<char>) -> (v: Vec<SynthStep>)
    ensures
        v@ == direct_plan(text@),
{
    let short = text.len() <= 3;
    let d: u64 = if short {
        30
    } else {
        15
    };
    let mut v: Vec<SynthStep> = Vec::new();
    if short {
        v.push(SynthStep::Sleep(100));
    }
    let mut pairs = char_pairs_exec(text, d);
    v.append(&mut pairs);
    if short {
        v.push(SynthStep::Sleep(100));
    }
    proof {
        assert(v@ =~= direct_plan(text@));
    }
    v
}

fn reset_plan_exec() -> (v: Vec<SynthStep>)
    ensures
        v@ == reset_steps(),
{
    let mut v: Vec<SynthStep> = Vec::new();
    v.push(SynthStep::KeyUp(SynthKey::Control));
    v.push(SynthStep::KeyUp(SynthKey::Shift));
    v.push(SynthStep::KeyUp(SynthKey::Alt));
    v.push(SynthStep::KeyUp(SynthKey::WinLeft));
    v.push(SynthStep::KeyUp(SynthKey::WinRight));
    v.push(SynthStep::Sleep(50));
    proof {
        assert(v@ =~= reset_steps());
    }
    v
}

fn paste_plan_exec(alternate: bool) -> (v: Vec<SynthStep>)
    ensures
        v@ == paste_plan(alternate),
{
    let mut v: Vec<SynthStep> = Vec::new();
    v.push(SynthStep::Sleep(150));
    let mut reset = reset_plan_exec();
    v.append(&mut reset);
    v.push(SynthStep::Sleep(150));
    if !alternate {
        v.push(SynthStep::KeyDown(SynthKey::Control));
        v.push(SynthStep::KeyDown(SynthKey::KeyV));
        v.push(SynthStep::KeyUp(SynthKey::KeyV));
        v.push(SynthStep::KeyUp(SynthKey::Control));
    } else {
        v.push(SynthStep::KeyDown(SynthKey::Shift));
        v.push(SynthStep::KeyDown(SynthKey::Insert));
        v.push(SynthStep::KeyUp(SynthKey::Insert));
        v.push(SynthStep::KeyUp(SynthKey::Shift));
    }
    v.push(SynthStep::Sleep(100));
    proof {
        assert(v@ =~= paste_plan(alternate));
    }
    v
}

fn left_pairs_exec(n: usize) -> (v: Vec<SynthStep>)
    ensures
        v@ == left_pairs(n as int),
{
    let mut v: Vec<SynthStep> = Vec::new();
    let mut i: usize = 0;
    while i < n
        invariant
            i <= n,
            left_pairs(n as int) == v@ + left_pairs(n - i),
        decreases n - i,
    {
        let ghost v0 = v@;
        v.push(SynthStep::KeyDown(SynthKey::Left));
        v.push(SynthStep::KeyUp(SynthKey::Left));
        v.push(SynthStep::Sleep(20));
        i = i + 1;
        proof {
            assert(v@ + left_pairs(n - i) =~= v0 + left_pairs(n - i + 1));
        }
    }
    proof {
        assert(v@ =~= v@ + left_pairs(0));
    }
    v
}

fn selection_plan_exec(n: usize, text: &Vec<char>) -> (v: Vec<SynthStep>)
    ensures
        v@ == selection_plan(n as int, text@),
{
    let mut v: Vec<SynthStep> = Vec::new();
    v.push(SynthStep::KeyDown(SynthKey::Home));
    v.push(SynthStep::KeyUp(SynthKey::Home));
    v.push(SynthStep::KeyDown(SynthKey::End));
    v.push(SynthStep::KeyUp(SynthKey::End));
    v.push(SynthStep::KeyDown(SynthKey::Shift));
    let mut lefts = left_pairs_exec(n);
    v.append(&mut lefts);
    v.push(SynthStep::KeyUp(SynthKey::Shift));
    let mut chars = char_pairs_exec(text, 15);
    v.append(&mut chars);
    proof {
        assert(v@ =~= selection_plan(n as int, text@));
    }
    v
}

/// One replacement in progress: the replacement text, the erase counts and
/// the phase the strategy chain stands in.
#[derive(Debug)]
pub struct SynthSession {
    /// The replacement text, as characters.
    pub text: Vec<char>,
    /// The character count of the matched keyword.
    pub trigger_len: usize,
    /// The erase count: `trigger_len` clamped to the safety ceiling.
    pub safe_len: usize,
    /// Whether the IME reported an open composition earlier in this session.
    pub ime_was_open: bool,
    /// Where the session stands.
    pub phase: SynthPhase,
}

impl SynthSession {
    /// The session's internal consistency.
    pub open spec fn wf(&self) -> bool {
        &&& self.safe_len == clamp_len(self.trigger_len as int)
        &&& (self.phase matches SynthPhase::AwaitSelection { attempt } ==> 1 <= attempt <= 2)
    }

    /// Whether the replacement is short enough for direct injection.
    pub open spec fn uses_direct_input(&self) -> bool {
        self.text@.len() <= 50
    }

    /// Starts a session for one replacement: `text` is inserted in place of
    /// the last `trigger_len` typed characters.
    pub fn new(text: Vec<char>, trigger_len: usize) -> (r: Self)
        ensures
            r.text@ == text@,
            r.trigger_len == trigger_len,
            r.safe_len == clamp_len(trigger_len as int),
            !r.ime_was_open,
            r.phase == SynthPhase::Init,
            r.wf(),
    {
        let safe_len = if trigger_len > MAX_ERASE {
            MAX_ERASE
        } else {
            trigger_len
        };
        Self { text, trigger_len, safe_len, ime_was_open: false, phase: SynthPhase::Init }
    }

    /// The events a phase can be answered with.
    pub open spec fn event_ok(phase: SynthPhase, ev: SynthEvent) -> bool {
        match phase {
            SynthPhase::AwaitIme => ev == SynthEvent::ImeOpen || ev == SynthEvent::ImeClosed,
            SynthPhase::AwaitClipSave => ev == SynthEvent::ClipboardSaved || ev
                == SynthEvent::ClipboardUnavailable,
            SynthPhase::AwaitSelection { .. } | SynthPhase::AwaitErase | SynthPhase::AwaitDirect
                | SynthPhase::AwaitClipSet | SynthPhase::AwaitPaste { .. } => ev
                == SynthEvent::Completed || ev == SynthEvent::Rejected,
            SynthPhase::Done { .. } => false,
            _ => true,
        }
    }

    /// The transition relation of the session: from the state `pre`,
    /// answered with `ev`, the session moves to `post` and issues `d`.
    /// Every case pins `post` and `d` exactly.
    pub open spec fn step_rel(
        pre: SynthSession,
        ev: SynthEvent,
        post: SynthSession,
        d: &SynthDirective,
    ) -> bool {
        &&& post.text@ == pre.text@
        &&& post.trigger_len == pre.trigger_len
        &&& post.safe_len == pre.safe_len
        &&& match pre.phase {
            SynthPhase::Init => {
                // the settling pre-delay, tuned to the keyword length
                &&& post.phase == SynthPhase::AwaitPre
                &&& post.ime_was_open == pre.ime_was_open
                &&& d matches SynthDirective::Run(p) && p@ == seq![
                    SynthStep::Sleep(pre_delay_ms(pre.safe_len as int)),
                ]
            },
            SynthPhase::AwaitPre => {
                // high-risk lengths try the selection overwrite first
                &&& post.ime_was_open == pre.ime_was_open
                &&& if is_high_risk_len(pre.safe_len as int) {
                    &&& post.phase == SynthPhase::AwaitSelection { attempt: 1 }
                    &&& d matches SynthDirective::Run(p) && p@ == selection_plan(
                        pre.safe_len as int,
                        pre.text@,
                    )
                } else {
                    &&& post.phase == SynthPhase::AwaitErase
                    &&& d matches SynthDirective::Run(p) && p@ == erase_plan(pre.safe_len as int)
                }
            },
            SynthPhase::AwaitSelection { attempt } => {
                &&& post.ime_was_open == pre.ime_was_open
                &&& if ev == SynthEvent::Completed {
                    // the typed replacement overwrote the selection
                    &&& post.phase == SynthPhase::AwaitFinalReset { ok: true }
                    &&& d matches SynthDirective::Run(p) && p@ == reset_steps()
                } else if attempt < 2 {
                    // retried once before falling back
                    &&& post.phase == SynthPhase::AwaitSelection { attempt: (attempt + 1) as u8 }
                    &&& d matches SynthDirective::Run(p) && p@ == selection_plan(
                        pre.safe_len as int,
                        pre.text@,
                    )
                } else {
                    // fall back to the backspace path
                    &&& post.phase == SynthPhase::AwaitErase
                    &&& d matches SynthDirective::Run(p) && p@ == erase_plan(pre.safe_len as int)
                }
            },
            SynthPhase::AwaitErase => {
                &&& post.ime_was_open == pre.ime_was_open
                &&& if ev == SynthEvent::Completed {
                    &&& post.phase == SynthPhase::AwaitInterWait
                    &&& d matches SynthDirective::Run(p) && p@ == seq![
                        SynthStep::Sleep(inter_delay_ms(pre.safe_len as int)),
                    ]
                } else {
                    // a rejected erase event fails the replacement
                    &&& post.phase == SynthPhase::AwaitFinalReset { ok: false }
                    &&& d matches SynthDirective::Run(p) && p@ == reset_steps()
                }
            },
            SynthPhase::AwaitInterWait => {
                &&& post.ime_was_open == pre.ime_was_open
                &&& if pre.uses_direct_input() {
                    &&& post.phase == SynthPhase::AwaitIme
                    &&& d matches SynthDirective::QueryIme
                } else {
                    &&& post.phase == SynthPhase::AwaitClipSave
                    &&& d matches SynthDirective::SaveClipboard
                }
            },
            SynthPhase::AwaitIme => {
                if ev == SynthEvent::ImeOpen {
                    // suspend the composition around direct injection
                    &&& post.ime_was_open
                    &&& post.phase == SynthPhase::AwaitImeOff
                    &&& d matches SynthDirective::SetIme(b) && b == false
                } else {
                    &&& post.ime_was_open == pre.ime_was_open
                    &&& post.phase == SynthPhase::AwaitDirect
                    &&& d matches SynthDirective::Run(p) && p@ == direct_plan(pre.text@)
                }
            },
            SynthPhase::AwaitImeOff => {
                // give the IME state change time to settle, then inject
                &&& post.ime_was_open == pre.ime_was_open
                &&& post.phase == SynthPhase::AwaitDirect
                &&& d matches SynthDirective::Run(p) && p@ == seq![SynthStep::Sleep(100)]
                    + direct_plan(pre.text@)
            },
            SynthPhase::AwaitDirect => {
                &&& post.ime_was_open == pre.ime_was_open
                &&& if ev == SynthEvent::Completed {
                    if pre.ime_was_open {
                        &&& post.phase == SynthPhase::AwaitImeRestore { to_clipboard: false }
                        &&& d matches SynthDirective::SetIme(b) && b == true
                    } else {
                        &&& post.phase == SynthPhase::AwaitFinalReset { ok: true }
                        &&& d matches SynthDirective::Run(p) && p@ == reset_steps()
                    }
                } else {
                    // direct injection failed: restore the IME if needed,
                    // then fall back to the clipboard
                    if pre.ime_was_open {
                        &&& post.phase == SynthPhase::AwaitImeRestore { to_clipboard: true }
                        &&& d matches SynthDirective::SetIme(b) && b == true
                    } else {
                        &&& post.phase == SynthPhase::AwaitClipSave
                        &&& d matches SynthDirective::SaveClipboard
                    }
                }
            },
            SynthPhase::AwaitImeRestore { to_clipboard } => {
                &&& post.ime_was_open == pre.ime_was_open
                &&& if to_clipboard {
                    &&& post.phase == SynthPhase::AwaitClipSave
                    &&& d matches SynthDirective::SaveClipboard
                } else {
                    &&& post.phase == SynthPhase::AwaitFinalReset { ok: true }
                    &&& d matches SynthDirective::Run(p) && p@ == reset_steps()
                }
            },
            SynthPhase::AwaitClipSave => {
                &&& post.ime_was_open == pre.ime_was_open
                &&& if ev == SynthEvent::ClipboardSaved {
                    &&& post.phase == SynthPhase::AwaitClipSet
                    &&& d matches SynthDirective::SetClipboardText(s) && s@ == pre.text@
                } else {
                    // no clipboard: the paste path is terminal for this try
                    &&& post.phase == SynthPhase::AwaitFinalReset { ok: false }
                    &&& d matches SynthDirective::Run(p) && p@ == reset_steps()
                }
            },
            SynthPhase::AwaitClipSet => {
                &&& post.ime_was_open == pre.ime_was_open
                &&& if ev == SynthEvent::Completed {
                    &&& post.phase == SynthPhase::AwaitPaste { alternate: false }
                    &&& d matches SynthDirective::Run(p) && p@ == paste_plan(false)
                } else {
                    &&& post.phase == SynthPhase::AwaitFinalReset { ok: false }
                    &&& d matches SynthDirective::Run(p) && p@ == reset_steps()
                }
            },
            SynthPhase::AwaitPaste { alternate } => {
                &&& post.ime_was_open == pre.ime_was_open
                &&& if ev == SynthEvent::Completed {
                    &&& post.phase == SynthPhase::AwaitPasteSettle
                    &&& d matches SynthDirective::Run(p) && p@ == seq![SynthStep::Sleep(200)]
                } else if !alternate {
                    // retry with the alternate shortcut before giving up
                    &&& post.phase == SynthPhase::AwaitPaste { alternate: true }
                    &&& d matches SynthDirective::Run(p) && p@ == paste_plan(true)
                } else {
                    &&& post.phase == SynthPhase::AwaitRestore { ok: false }
                    &&& d matches SynthDirective::RestoreClipboard
                }
            },
            SynthPhase::AwaitPasteSettle => {
                &&& post.ime_was_open == pre.ime_was_open
                &&& post.phase == SynthPhase::AwaitRestore { ok: true }
                &&& d matches SynthDirective::RestoreClipboard
            },
            SynthPhase::AwaitRestore { ok } => {
                &&& post.ime_was_open == pre.ime_was_open
                &&& post.phase == SynthPhase::AwaitFinalReset { ok }
                &&& d matches SynthDirective::Run(p) && p@ == reset_steps()
            },
            SynthPhase::AwaitFinalReset { ok } => {
                &&& post.ime_was_open == pre.ime_was_open
                &&& post.phase == SynthPhase::Done { ok }
                &&& d matches SynthDirective::Finish(b) && b == ok
            },
            SynthPhase::Done { .. } => false,
        }
    }

    /// Answers the session with the outcome of the last directive and hands
    /// back the next one.
    pub fn next(&mut self, ev: SynthEvent) -> (d: SynthDirective)
        requires
            old(self).wf(),
            Self::event_ok(old(self).phase, ev),
        ensures
            final(self).wf(),
            Self::step_rel(*old(self), ev, *final(self), &d),
    {
        match self.phase {
            SynthPhase::Init => {
                self.phase = SynthPhase::AwaitPre;
                let mut p: Vec<SynthStep> = Vec::new();
                let n = self.safe_len;
                p.push(SynthStep::Sleep(if n <= 2 {
                    400
                } else if 5 <= n && n <= 9 {
                    300
                } else {
                    200
                }));
                proof {
                    assert(p@ =~= seq![SynthStep::Sleep(pre_delay_ms(self.safe_len as int))]);
                }
                SynthDirective::Run(p)
            },
            SynthPhase::AwaitPre => {
                if 5 <= self.safe_len && self.safe_len <= 9 {
                    self.phase = SynthPhase::AwaitSelection { attempt: 1 };
                    SynthDirective::Run(selection_plan_exec(self.safe_len, &self.text))
                } else {
                    self.phase = SynthPhase::AwaitErase;
                    SynthDirective::Run(erase_plan_exec(self.safe_len))
                }
            },
            SynthPhase::AwaitSelection { attempt } => {
                if matches!(ev, SynthEvent::Completed) {
                    self.phase = SynthPhase::AwaitFinalReset { ok: true };
                    SynthDirective::Run(reset_plan_exec())
                } else if attempt < 2 {
                    self.phase = SynthPhase::AwaitSelection { attempt: attempt + 1 };
                    SynthDirective::Run(selection_plan_exec(self.safe_len, &self.text))
                } else {
                    self.phase = SynthPhase::AwaitErase;
                    SynthDirective::Run(erase_plan_exec(self.safe_len))
                }
            },
            SynthPhase::AwaitErase => {
                if matches!(ev, SynthEvent::Completed) {
                    self.phase = SynthPhase::AwaitInterWait;
                    let mut p: Vec<SynthStep> = Vec::new();
                    let n = self.safe_len;
                    p.push(SynthStep::Sleep(if n <= 2 {
                        600
                    } else if n > 7 {
                        400
                    } else {
                        300
                    }));
                    proof {
                        assert(p@ =~= seq![SynthStep::Sleep(inter_delay_ms(self.safe_len as int))]);
                    }
                    SynthDirective::Run(p)
                } else {
                    self.phase = SynthPhase::AwaitFinalReset { ok: false };
                    SynthDirective::Run(reset_plan_exec())
                }
            },
            SynthPhase::AwaitInterWait => {
                if self.text.len() <= 50 {
                    self.phase = SynthPhase::AwaitIme;
                    SynthDirective::QueryIme
                } else {
                    self.phase = SynthPhase::AwaitClipSave;
                    SynthDirective::SaveClipboard
                }
            },
            SynthPhase::AwaitIme => {
                if matches!(ev, SynthEvent::ImeOpen) {
                    self.ime_was_open = true;
                    self.phase = SynthPhase::AwaitImeOff;
                    SynthDirective::SetIme(false)
                } else {
                    self.phase = SynthPhase::AwaitDirect;
                    SynthDirective::Run(direct_plan_exec(&self.text))
                }
            },
            SynthPhase::AwaitImeOff => {
                self.phase = SynthPhase::AwaitDirect;
                let mut p: Vec<SynthStep> = Vec::new();
                p.push(SynthStep::Sleep(100));
                let mut rest = direct_plan_exec(&self.text);
                p.append(&mut rest);
                proof {
                    assert(p@ =~= seq![SynthStep::Sleep(100u64)] + direct_plan(self.text@));
                }
                SynthDirective::Run(p)
            },
            SynthPhase::AwaitDirect => {
                if matches!(ev, SynthEvent::Completed) {
                    if self.ime_was_open {
                        self.phase = SynthPhase::AwaitImeRestore { to_clipboard: false };
                        SynthDirective::SetIme(true)
                    } else {
                        self.phase = SynthPhase::AwaitFinalReset { ok: true };
                        SynthDirective::Run(reset_plan_exec())
                    }
                } else {
                    if self.ime_was_open {
                        self.phase = SynthPhase::AwaitImeRestore { to_clipboard: true };
                        SynthDirective::SetIme(true)
                    } else {
                        self.phase = SynthPhase::AwaitClipSave;
                        SynthDirective::SaveClipboard
                    }
                }
            },
            SynthPhase::AwaitImeRestore { to_clipboard } => {
                if to_clipboard {
                    self.phase = SynthPhase::AwaitClipSave;
                    SynthDirective::SaveClipboard
                } else {
                    self.phase = SynthPhase::AwaitFinalReset { ok: true };
                    SynthDirective::Run(reset_plan_exec())
                }
            },
            SynthPhase::AwaitClipSave => {
                if matches!(ev, SynthEvent::ClipboardSaved) {
                    self.phase = SynthPhase::AwaitClipSet;
                    SynthDirective::SetClipboardText(chars_to_string(&self.text))
                } else {
                    self.phase = SynthPhase::AwaitFinalReset { ok: false };
                    SynthDirective::Run(reset_plan_exec())
                }
            },
            SynthPhase::AwaitClipSet => {
                if matches!(ev, SynthEvent::Completed) {
                    self.phase = SynthPhase::AwaitPaste { alternate: false };
                    SynthDirective::Run(paste_plan_exec(false))
                } else {
                    self.phase = SynthPhase::AwaitFinalReset { ok: false };
                    SynthDirective::Run(reset_plan_exec())
                }
            },
            SynthPhase::AwaitPaste { alternate } => {
                if matches!(ev, SynthEvent::Completed) {
                    self.phase = SynthPhase::AwaitPasteSettle;
                    let mut p: Vec<SynthStep> = Vec::new();
                    p.push(SynthStep::Sleep(200));
                    proof {
                        assert(p@ =~= seq![SynthStep::Sleep(200u64)]);
                    }
                    SynthDirective::Run(p)
                } else if !alternate {
                    self.phase = SynthPhase::AwaitPaste { alternate: true };
                    SynthDirective::Run(paste_plan_exec(true))
                } else {
                    self.phase = SynthPhase::AwaitRestore { ok: false };
                    SynthDirective::RestoreClipboard
                }
            },
            SynthPhase::AwaitPasteSettle => {
                self.phase = SynthPhase::AwaitRestore { ok: true };
                SynthDirective::RestoreClipboard
            },
            SynthPhase::AwaitRestore { ok } => {
                self.phase = SynthPhase::AwaitFinalReset { ok };
                SynthDirective::Run(reset_plan_exec())
            },
            SynthPhase::AwaitFinalReset { ok } => {
                self.phase = SynthPhase::Done { ok };
                SynthDirective::Finish(ok)
            },
            SynthPhase::Done { ok } => {
                proof {
                    assert(false);
                }
                SynthDirective::Finish(ok)
            },
        }
    }
}

/// The session finishes only out of the final-reset phase: a `Finish`
/// directive is issued exactly when the modifier release has just run.
pub proof fn lemma_finish_only_after_reset(
    pre: SynthSession,
    ev: SynthEvent,
    post: SynthSession,
    d: &SynthDirective,
)
    requires
        SynthSession::step_rel(pre, ev, post, d),
        d matches SynthDirective::Finish(..),
    ensures
        pre.phase matches SynthPhase::AwaitFinalReset { .. },
        post.phase matches SynthPhase::Done { .. },
{
}

/// The final-reset phase is entered only by issuing the modifier-release
/// plan. Together with `lemma_finish_only_after_reset` and `Init` being
/// the only starting phase, every exit path of a session runs the reset.
pub proof fn lemma_reset_precedes_finish(
    pre: SynthSession,
    ev: SynthEvent,
    post: SynthSession,
    d: &SynthDirective,
)
    requires
        SynthSession::step_rel(pre, ev, post, d),
        post.phase matches SynthPhase::AwaitFinalReset { .. },
    ensures
        d matches SynthDirective::Run(p) && p@ == reset_steps(),
{
}

/// The modifier-release plan releases every modifier key: Ctrl, Shift,
/// Alt and both Win keys.
pub proof fn lemma_reset_releases_all_modifiers()
    ensures
        reset_steps().contains(SynthStep::KeyUp(SynthKey::Control)),
        reset_steps().contains(SynthStep::KeyUp(SynthKey::Shift)),
        reset_steps().contains(SynthStep::KeyUp(SynthKey::Alt)),
        reset_steps().contains(SynthStep::KeyUp(SynthKey::WinLeft)),
        reset_steps().contains(SynthStep::KeyUp(SynthKey::WinRight)),
{
    assert(reset_steps()[0] == SynthStep::KeyUp(SynthKey::Control));
    assert(reset_steps()[1] == SynthStep::KeyUp(SynthKey::Shift));
    assert(reset_steps()[2] == SynthStep::KeyUp(SynthKey::Alt));
    assert(reset_steps()[3] == SynthStep::KeyUp(SynthKey::WinLeft));
    assert(reset_steps()[4] == SynthStep::KeyUp(SynthKey::WinRight));
}

} // verus!
