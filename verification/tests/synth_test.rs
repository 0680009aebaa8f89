use swifttype::replacement::synth::{
    SynthDirective, SynthEvent, SynthKey, SynthSession, SynthStep,
};

fn session_for(text: &str, trigger_len: usize) -> SynthSession {
    SynthSession::new(text.chars().collect(), trigger_len)
}

fn run_steps(d: SynthDirective) -> Vec<SynthStep> {
    match d {
        SynthDirective::Run(steps) => steps,
        other => panic!("expected a step plan, got {:?}", other),
    }
}

fn assert_releases_all_modifiers(steps: &[SynthStep]) {
    for key in [
        SynthKey::Control,
        SynthKey::Shift,
        SynthKey::Alt,
        SynthKey::WinLeft,
        SynthKey::WinRight,
    ] {
        assert!(steps.contains(&SynthStep::KeyUp(key)), "missing release of {:?}", key);
    }
}

#[test]
fn test_direct_input_session_flow() {
    let mut s = session_for("hi", 3);
    // pre-delay tuned to the keyword length
    let pre = run_steps(s.next(SynthEvent::Completed));
    assert_eq!(pre, vec![SynthStep::Sleep(200)]);
    // erase: initial wait, three paced backspace pairs, final wait
    let erase = run_steps(s.next(SynthEvent::Completed));
    assert_eq!(erase.len(), 14);
    assert_eq!(erase[0], SynthStep::Sleep(40));
    assert_eq!(erase[1], SynthStep::KeyDown(SynthKey::Backspace));
    assert_eq!(erase[3], SynthStep::KeyUp(SynthKey::Backspace));
    assert_eq!(erase[13], SynthStep::Sleep(60));
    assert_eq!(
        erase.iter().filter(|st| **st == SynthStep::KeyDown(SynthKey::Backspace)).count(),
        3
    );
    // the pause between erasure and insertion
    let wait = run_steps(s.next(SynthEvent::Completed));
    assert_eq!(wait, vec![SynthStep::Sleep(300)]);
    // short replacement: the IME is probed before direct injection
    assert!(matches!(s.next(SynthEvent::Completed), SynthDirective::QueryIme));
    let direct = run_steps(s.next(SynthEvent::ImeClosed));
    assert_eq!(direct[0], SynthStep::Sleep(100));
    assert!(direct.contains(&SynthStep::CharDown('h' as u32)));
    assert!(direct.contains(&SynthStep::CharUp('i' as u32)));
    // success: the modifiers are released, then the session finishes
    let reset = run_steps(s.next(SynthEvent::Completed));
    assert_releases_all_modifiers(&reset);
    assert!(matches!(s.next(SynthEvent::Completed), SynthDirective::Finish(true)));
}

#[test]
fn test_ime_suspended_and_restored() {
    let mut s = session_for("ok", 3);
    s.next(SynthEvent::Completed); // pre-delay
    s.next(SynthEvent::Completed); // erase
    s.next(SynthEvent::Completed); // inter wait
    s.next(SynthEvent::Completed); // query ime
    // an open composition is suspended around direct injection
    assert!(matches!(s.next(SynthEvent::ImeOpen), SynthDirective::SetIme(false)));
    let direct = run_steps(s.next(SynthEvent::Completed));
    assert_eq!(direct[0], SynthStep::Sleep(100));
    // and restored afterwards
    assert!(matches!(s.next(SynthEvent::Completed), SynthDirective::SetIme(true)));
    let reset = run_steps(s.next(SynthEvent::Completed));
    assert_releases_all_modifiers(&reset);
    assert!(matches!(s.next(SynthEvent::Completed), SynthDirective::Finish(true)));
}

#[test]
fn test_clipboard_fallback_flow() {
    // a long replacement goes through the clipboard, with the previous
    // contents saved and restored, and the alternate shortcut retried
    let long_text: String = "x".repeat(60);
    let mut s = session_for(&long_text, 4);
    s.next(SynthEvent::Completed); // pre-delay
    s.next(SynthEvent::Completed); // erase
    s.next(SynthEvent::Completed); // inter wait
    assert!(matches!(s.next(SynthEvent::Completed), SynthDirective::SaveClipboard));
    match s.next(SynthEvent::ClipboardSaved) {
        SynthDirective::SetClipboardText(text) => assert_eq!(text, long_text),
        other => panic!("expected the clipboard text, got {:?}", other),
    }
    let paste = run_steps(s.next(SynthEvent::Completed));
    assert!(paste.contains(&SynthStep::KeyDown(SynthKey::Control)));
    assert!(paste.contains(&SynthStep::KeyDown(SynthKey::KeyV)));
    // primary shortcut rejected: the alternate one is tried
    let alternate = run_steps(s.next(SynthEvent::Rejected));
    assert!(alternate.contains(&SynthStep::KeyDown(SynthKey::Shift)));
    assert!(alternate.contains(&SynthStep::KeyDown(SynthKey::Insert)));
    let settle = run_steps(s.next(SynthEvent::Completed));
    assert_eq!(settle, vec![SynthStep::Sleep(200)]);
    assert!(matches!(s.next(SynthEvent::Completed), SynthDirective::RestoreClipboard));
    let reset = run_steps(s.next(SynthEvent::Completed));
    assert_releases_all_modifiers(&reset);
    assert!(matches!(s.next(SynthEvent::Completed), SynthDirective::Finish(true)));
}

#[test]
fn test_clipboard_unavailable_fails() {
    let long_text: String = "y".repeat(51);
    let mut s = session_for(&long_text, 4);
    s.next(SynthEvent::Completed); // pre-delay
    s.next(SynthEvent::Completed); // erase
    s.next(SynthEvent::Completed); // inter wait
    assert!(matches!(s.next(SynthEvent::Completed), SynthDirective::SaveClipboard));
    let reset = run_steps(s.next(SynthEvent::ClipboardUnavailable));
    assert_releases_all_modifiers(&reset);
    assert!(matches!(s.next(SynthEvent::Completed), SynthDirective::Finish(false)));
}

#[test]
fn test_erase_rejected_fails_with_reset() {
    // whatever the outcome, the modifiers are released before the finish
    let mut s = session_for("hi", 3);
    s.next(SynthEvent::Completed); // pre-delay
    s.next(SynthEvent::Completed); // erase plan issued
    let reset = run_steps(s.next(SynthEvent::Rejected));
    assert_releases_all_modifiers(&reset);
    assert!(matches!(s.next(SynthEvent::Completed), SynthDirective::Finish(false)));
}

#[test]
fn test_high_risk_selection_path() {
    // keyword lengths in the failure-prone band try the selection overwrite
    // first, retried once, then fall back to the backspace path
    let mut s = session_for("word", 6);
    s.next(SynthEvent::Completed); // pre-delay (300 for the band)
    let selection = run_steps(s.next(SynthEvent::Completed));
    assert_eq!(selection[0], SynthStep::KeyDown(SynthKey::Home));
    assert!(selection.contains(&SynthStep::KeyDown(SynthKey::End)));
    assert_eq!(
        selection.iter().filter(|st| **st == SynthStep::KeyDown(SynthKey::Left)).count(),
        6
    );
    assert!(selection.contains(&SynthStep::CharDown('w' as u32)));
    let retry = run_steps(s.next(SynthEvent::Rejected));
    assert_eq!(retry, selection);
    let erase = run_steps(s.next(SynthEvent::Rejected));
    assert_eq!(erase[1], SynthStep::KeyDown(SynthKey::Backspace));
    assert_eq!(
        erase.iter().filter(|st| **st == SynthStep::KeyDown(SynthKey::Backspace)).count(),
        6
    );
}

#[test]
fn test_selection_success_resets_and_finishes() {
    let mut s = session_for("word", 7);
    s.next(SynthEvent::Completed); // pre-delay
    s.next(SynthEvent::Completed); // selection plan issued
    let reset = run_steps(s.next(SynthEvent::Completed));
    assert_releases_all_modifiers(&reset);
    assert!(matches!(s.next(SynthEvent::Completed), SynthDirective::Finish(true)));
}

#[test]
fn test_trigger_len_clamped() {
    // the erase count is clamped to the safety ceiling
    let s = session_for("text", 50);
    assert_eq!(s.trigger_len, 50);
    assert_eq!(s.safe_len, 20);

    let s = session_for("text", 12);
    assert_eq!(s.safe_len, 12);
}

#[test]
fn test_short_keyword_delays() {
    // very short keywords get the longest settling delays
    let mut s = session_for("hello", 2);
    let pre = run_steps(s.next(SynthEvent::Completed));
    assert_eq!(pre, vec![SynthStep::Sleep(400)]);
    let erase = run_steps(s.next(SynthEvent::Completed));
    assert_eq!(erase[0], SynthStep::Sleep(100));
    let wait = run_steps(s.next(SynthEvent::Completed));
    assert_eq!(wait, vec![SynthStep::Sleep(600)]);
}

#[test]
fn test_zero_length_erase_is_empty() {
    let mut s = session_for("abc", 0);
    s.next(SynthEvent::Completed); // pre-delay
    let erase = run_steps(s.next(SynthEvent::Completed));
    assert!(erase.is_empty());
}
