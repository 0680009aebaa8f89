//! Translation of raw virtual key codes into printable characters.

use vstd::prelude::*;

verus! {

/// A raw virtual key code as the OS hook reports it.
#[derive(Debug, Clone, Copy, PartialEq, Eq, Structural)]
pub struct Key(pub u32);

/// The printable character for a virtual key code, if it has one.
///
/// Digits, letters (reported lower-case), the numeric keypad and the common
/// punctuation keys map to a character; control keys map to nothing.
pub open spec fn char_for_key(vk: u32) -> Option<char> {
    if vk == 0x20 {
        Some(' ')
    } else if 0x30 <= vk && vk <= 0x39 {
        Some((((vk - 0x30) + 0x30) as u8) as char)
    } else if 0x41 <= vk && vk <= 0x5A {
        Some((((vk - 0x41) + 0x61) as u8) as char)
    } else if 0x60 <= vk && vk <= 0x69 {
        Some((((vk - 0x60) + 0x30) as u8) as char)
    } else if vk == 0x6A {
        Some('*')
    } else if vk == 0x6B {
        Some('+')
    } else if vk == 0x6D {
        Some('-')
    } else if vk == 0x6E {
        Some('.')
    } else if vk == 0x6F {
        Some('/')
    } else if vk == 0xBA {
        Some(';')
    } else if vk == 0xBB {
        Some('=')
    } else if vk == 0xBC {
        Some(',')
    } else if vk == 0xBD {
        Some('-')
    } else if vk == 0xBE {
        Some('.')
    } else if vk == 0xBF {
        Some('/')
    } else if vk == 0xC0 {
        Some('@')
    } else if vk == 0xDB {
        Some('[')
    } else if vk == 0xDC {
        Some('\\')
    } else if vk == 0xDD {
        Some(']')
    } else if vk == 0xDE {
        Some('\'')
    } else if vk == 0xE2 {
        Some('_')
    } else {
        None
    }
}

impl Key {
    /// Wraps a raw virtual key code.
    pub fn from_virtual_key(vk: u32) -> (r: Self)
        ensures
            r.0 == vk,
    {
        Self(vk)
    }

    /// Translates this key into its printable character, if any.
    pub fn to_char(&self) -> (r: Option<char>)
        ensures
            r == char_for_key(self.0),
    {
        let vk = self.0;
        if vk == 0x20 {
            Some(' ')
        } else if 0x30 <= vk && vk <= 0x39 {
            Some((((vk - 0x30) + 0x30) as u8) as char)
        } else if 0x41 <= vk && vk <= 0x5A {
            Some((((vk - 0x41) + 0x61) as u8) as char)
        } else if 0x60 <= vk && vk <= 0x69 {
            Some((((vk - 0x60) + 0x30) as u8) as char)
        } else if vk == 0x6A {
            Some('*')
        } else if vk == 0x6B {
            Some('+')
        } else if vk == 0x6D {
            Some('-')
        } else if vk == 0x6E {
            Some('.')
        } else if vk == 0x6F {
            Some('/')
        } else if vk == 0xBA {
            Some(';')
        } else if vk == 0xBB {
            Some('=')
        } else if vk == 0xBC {
            Some(',')
        } else if vk == 0xBD {
            Some('-')
        } else if vk == 0xBE {
            Some('.')
        } else if vk == 0xBF {
            Some('/')
        } else if vk == 0xC0 {
            Some('@')
        } else if vk == 0xDB {
            Some('[')
        } else if vk == 0xDC {
            Some('\\')
        } else if vk == 0xDD {
            Some(']')
        } else if vk == 0xDE {
            Some('\'')
        } else if vk == 0xE2 {
            Some('_')
        } else {
            None
        }
    }
}

} // verus!
