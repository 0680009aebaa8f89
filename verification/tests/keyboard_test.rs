use swifttype::keyboard::{Key, KeyboardState};

#[test]
fn test_keyboard_state() {
    let mut keyboard_state = KeyboardState::new(10);

    assert_eq!(keyboard_state.get_buffer(), "");

    keyboard_state.add_char('a');
    assert_eq!(keyboard_state.get_buffer(), "a");

    keyboard_state.add_char('b');
    keyboard_state.add_char('c');
    assert_eq!(keyboard_state.get_buffer(), "abc");

    assert!(keyboard_state.check_keyword("abc"));
    assert!(keyboard_state.check_keyword("bc"));
    assert!(keyboard_state.check_keyword("c"));
    assert!(!keyboard_state.check_keyword("d"));
    assert!(!keyboard_state.check_keyword("ab"));

    keyboard_state.clear_buffer();
    assert_eq!(keyboard_state.get_buffer(), "");

    for i in 0..15 {
        keyboard_state.add_char((b'a' + (i % 26)) as char);
    }

    assert_eq!(keyboard_state.get_buffer().len(), 10);
    assert_eq!(keyboard_state.get_buffer(), "fghijklmno");
}

#[test]
fn test_replace_keyword() {
    let mut keyboard_state = KeyboardState::new(20);

    for c in "hello world".chars() {
        keyboard_state.add_char(c);
    }

    let replaced = keyboard_state.replace_keyword("world", "");
    assert!(replaced);
    assert_eq!(keyboard_state.get_buffer(), "hello ");

    let replaced = keyboard_state.replace_keyword("not_found", "");
    assert!(!replaced);
    assert_eq!(keyboard_state.get_buffer(), "hello ");
}

#[test]
fn test_buffer_capacity_scenario() {
    // capacity 10; fifteen characters pushed one at a time keep the last ten
    let mut state = KeyboardState::new(10);
    for c in "abcdefghijklmno".chars() {
        state.add_char(c);
    }
    assert_eq!(state.get_keyword_candidate(), "fghijklmno");
}

#[test]
fn test_line_terminator_clears_buffer() {
    let mut state = KeyboardState::new(10);
    state.add_char('a');
    state.add_char('b');
    state.add_char('\n');
    assert_eq!(state.get_buffer(), "");
    state.add_char('c');
    state.add_char('\r');
    assert_eq!(state.get_buffer(), "");
}

#[test]
fn test_should_check_replacement() {
    let mut state = KeyboardState::new(10);
    assert!(!state.should_check_replacement());
    state.add_char('a');
    assert!(!state.should_check_replacement());
    state.add_char('b');
    assert!(state.should_check_replacement());
}

#[test]
fn test_key_to_char_mapping() {
    assert_eq!(Key::from_virtual_key(0x41).to_char(), Some('a'));
    assert_eq!(Key::from_virtual_key(0x5A).to_char(), Some('z'));
    assert_eq!(Key::from_virtual_key(0x30).to_char(), Some('0'));
    assert_eq!(Key::from_virtual_key(0x39).to_char(), Some('9'));
    assert_eq!(Key::from_virtual_key(0x60).to_char(), Some('0'));
    assert_eq!(Key::from_virtual_key(0x69).to_char(), Some('9'));
    assert_eq!(Key::from_virtual_key(0x20).to_char(), Some(' '));
    assert_eq!(Key::from_virtual_key(0x6A).to_char(), Some('*'));
    assert_eq!(Key::from_virtual_key(0xBA).to_char(), Some(';'));
    assert_eq!(Key::from_virtual_key(0xBB).to_char(), Some('='));
    assert_eq!(Key::from_virtual_key(0xBC).to_char(), Some(','));
    assert_eq!(Key::from_virtual_key(0xE2).to_char(), Some('_'));
    // control keys carry no printable character
    assert_eq!(Key::from_virtual_key(0x08).to_char(), None);
    assert_eq!(Key::from_virtual_key(0x0D).to_char(), None);
    assert_eq!(Key::from_virtual_key(0x1B).to_char(), None);
    assert_eq!(Key::from_virtual_key(0xFF).to_char(), None);
}

#[test]
fn test_process_key_event() {
    let mut state = KeyboardState::new(10);
    // key-down of 'a'
    state.process_key_event(0x0100, 0x41);
    assert_eq!(state.get_buffer(), "a");
    // key-up is ignored
    state.process_key_event(0x0101, 0x42);
    assert_eq!(state.get_buffer(), "a");
    // system key-down of 'b'
    state.process_key_event(0x0104, 0x42);
    assert_eq!(state.get_buffer(), "ab");
    // a key with no printable character is ignored
    state.process_key_event(0x0100, 0x1B);
    assert_eq!(state.get_buffer(), "ab");
}
