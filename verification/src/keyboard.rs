//! The rolling keyword buffer: a bounded FIFO of typed characters that a
//! line break clears, together with the model of how it evolves under a
//! sequence of key presses.

pub mod hook;
pub mod key;

pub use hook::KeyboardHook;
pub use key::Key;

use vstd::prelude::*;

use crate::text::{chars_end_with, chars_to_string, seq_ends_with, str_to_chars};
use key::char_for_key;

verus! {

/// A line break is a hard boundary that no trigger may cross.
pub open spec fn is_line_terminator(c: char) -> bool {
    c == '\n' || c == '\r'
}

/// One step of the buffer under a pushed character: a line terminator
/// clears it, any other character is appended, and the oldest character
/// is dropped once the capacity is exceeded.
pub open spec fn push_model(cap: nat, b: Seq<char>, c: char) -> Seq<char> {
    if is_line_terminator(c) {
        Seq::empty()
    } else if b.len() < cap {
        b.push(c)
    } else {
        b.push(c).skip(1)
    }
}

/// The buffer contents after a whole sequence of pushes, starting empty.
pub open spec fn buffer_after(cap: nat, pushes: Seq<char>) -> Seq<char>
    decreases pushes.len(),
{
    if pushes.len() == 0 {
        Seq::empty()
    } else {
        push_model(cap, buffer_after(cap, pushes.drop_last()), pushes.last())
    }
}

/// The effect of one raw key event on the buffer: only a key-down message
/// for a key with a printable character changes it.
pub open spec fn event_model(cap: nat, b: Seq<char>, msg: u32, vk: u32) -> Seq<char> {
    if (msg == 0x0100 || msg == 0x0104) && char_for_key(vk) is Some {
        push_model(cap, b, char_for_key(vk)->Some_0)
    } else {
        b
    }
}

/// The rolling buffer of typed characters, bounded by a fixed capacity.
#[derive(Debug)]
pub struct KeyboardState {
    buffer: Vec<char>,
    buffer_size: usize,
}

impl View for KeyboardState {
    type V = Seq<char>;

    /// The buffered characters, oldest first.
    closed spec fn view(&self) -> Seq<char> {
        self.buffer@
    }
}

impl KeyboardState {
    /// The fixed capacity the buffer was created with.
    pub closed spec fn capacity(&self) -> nat {
        self.buffer_size as nat
    }

    /// The buffer never holds more characters than its capacity.
    pub open spec fn wf(&self) -> bool {
        self@.len() <= self.capacity()
    }

    /// Creates an empty buffer of the given capacity.
    pub fn new(buffer_size: usize) -> (r: Self)
        ensures
            r@ == Seq::<char>::empty(),
            r.capacity() == buffer_size as nat,
            r.wf(),
    {
        Self { buffer: Vec::new(), buffer_size }
    }

    /// Handles one raw key event: on a key-down message, the key's
    /// printable character (if any) is pushed into the buffer.
    pub fn process_key_event(&mut self, msg: u32, vk_code: u32)
        requires
            old(self).wf(),
        ensures
            final(self).wf(),
            final(self).capacity() == old(self).capacity(),
            final(self)@ == event_model(old(self).capacity(), old(self)@, msg, vk_code),
    {
        if msg == 0x0100 || msg == 0x0104 {
            if let Some(c) = Key::from_virtual_key(vk_code).to_char() {
                self.add_char(c);
            }
        }
    }

    /// True once enough characters are buffered for a match attempt.
    pub fn should_check_replacement(&self) -> (r: bool)
        ensures
            r == (self@.len() >= 2),
    {
        self.buffer.len() >= 2
    }

    /// Pushes one character: a line terminator clears the buffer, any other
    /// character is appended, and the oldest is dropped over capacity.
    pub fn add_char(&mut self, c: char)
        requires
            old(self).wf(),
        ensures
            final(self).wf(),
            final(self).capacity() == old(self).capacity(),
            final(self)@ == push_model(old(self).capacity(), old(self)@, c),
    {
        if c == '\n' || c == '\r' {
            self.clear_buffer();
            return;
        }
        self.buffer.push(c);
        if self.buffer.len() > self.buffer_size {
            self.buffer.remove(0);
            proof {
                assert(self.buffer@ =~= old(self)@.push(c).skip(1));
            }
        }
    }

    /// Empties the buffer.
    pub fn clear_buffer(&mut self)
        ensures
            final(self).wf(),
            final(self).capacity() == old(self).capacity(),
            final(self)@ == Seq::<char>::empty(),
    {
        self.buffer.clear();
    }

    /// Removes `keyword` from the end of the buffer if it stands there.
    /// Returns whether it did; on `false` the buffer is unchanged.
    pub fn replace_keyword(&mut self, keyword: &str, _replacement: &str) -> (r: bool)
        requires
            old(self).wf(),
        ensures
            final(self).wf(),
            final(self).capacity() == old(self).capacity(),
            r == seq_ends_with(old(self)@, keyword@),
            r ==> final(self)@ == old(self)@.take(old(self)@.len() - keyword@.len()),
            !r ==> final(self)@ == old(self)@,
    {
        let kw = str_to_chars(keyword);
        if kw.len() > self.buffer.len() {
            return false;
        }
        let start = self.buffer.len() - kw.len();
        if chars_end_with(&self.buffer, &kw) {
            self.buffer.truncate(start);
            proof {
                assert(self.buffer@ =~= old(self)@.take(old(self)@.len() - keyword@.len()));
            }
            true
        } else {
            false
        }
    }

    /// The buffer contents as a string.
    pub fn get_buffer(&self) -> (r: String)
        ensures
            r@ == self@,
    {
        chars_to_string(&self.buffer)
    }

    /// The current keyword candidate: the whole buffer contents.
    pub fn get_keyword_candidate(&self) -> (r: String)
        ensures
            r@ == self@,
    {
        chars_to_string(&self.buffer)
    }

    /// True when the buffer ends with `keyword`.
    pub fn check_keyword(&self, keyword: &str) -> (r: bool)
        ensures
            r == seq_ends_with(self@, keyword@),
    {
        let kw = str_to_chars(keyword);
        chars_end_with(&self.buffer, &kw)
    }

    /// Clears the buffer after a completed replacement, so that the spent
    /// keyword cannot trigger again.
    pub fn keyword_replaced(&mut self)
        ensures
            final(self).wf(),
            final(self).capacity() == old(self).capacity(),
            final(self)@ == Seq::<char>::empty(),
    {
        self.clear_buffer();
    }
}

/// The buffer never exceeds its capacity, whatever is pushed.
pub proof fn lemma_buffer_bounded(cap: nat, pushes: Seq<char>)
    ensures
        buffer_after(cap, pushes).len() <= cap,
    decreases pushes.len(),
{
    if pushes.len() > 0 {
        lemma_buffer_bounded(cap, pushes.drop_last());
    }
}

/// Without a line terminator among the pushes, the buffer holds exactly the
/// last `min(len, cap)` pushed characters, in order.
pub proof fn lemma_buffer_is_suffix(cap: nat, pushes: Seq<char>)
    requires
        forall|i: int| 0 <= i < pushes.len() ==> !is_line_terminator(pushes[i]),
    ensures
        pushes.len() <= cap ==> buffer_after(cap, pushes) == pushes,
        pushes.len() > cap ==> buffer_after(cap, pushes) == pushes.skip(pushes.len() - cap),
    decreases pushes.len(),
{
    if pushes.len() > 0 {
        let dl = pushes.drop_last();
        lemma_buffer_is_suffix(cap, dl);
        lemma_buffer_bounded(cap, dl);
        if pushes.len() <= cap {
            assert(buffer_after(cap, pushes) =~= pushes);
        } else if dl.len() <= cap {
            // the push that first exceeds the capacity drops one character
            assert(buffer_after(cap, pushes) =~= pushes.skip(pushes.len() - cap));
        } else {
            assert(buffer_after(cap, dl) == dl.skip(dl.len() - cap));
            assert(buffer_after(cap, pushes) =~= pushes.skip(pushes.len() - cap));
        }
    }
}

/// The full picture of the buffer under any sequence of pushes: with `k`
/// the position of the last line terminator pushed, the candidate equals
/// the last `min(len, cap)` characters pushed after it, in order.
pub proof fn lemma_buffer_after_last_terminator(cap: nat, pushes: Seq<char>, k: int)
    requires
        0 <= k < pushes.len(),
        is_line_terminator(pushes[k]),
        forall|j: int| k < j < pushes.len() ==> !is_line_terminator(pushes[j]),
    ensures
        pushes.len() - (k + 1) <= cap ==> buffer_after(cap, pushes) == pushes.skip(k + 1),
        pushes.len() - (k + 1) > cap ==> buffer_after(cap, pushes) == pushes.skip(
            pushes.len() - cap,
        ),
{
    lemma_terminator_resets(cap, pushes, k);
    let tail = pushes.skip(k + 1);
    assert forall|j: int| 0 <= j < tail.len() implies !is_line_terminator(tail[j]) by {
        assert(tail[j] == pushes[k + 1 + j]);
    }
    lemma_buffer_is_suffix(cap, tail);
    if tail.len() > cap {
        assert(tail.skip(tail.len() - cap) =~= pushes.skip(pushes.len() - cap));
    }
}

/// A line terminator resets the buffer: after the last terminator, only the
/// characters pushed since then matter.
pub proof fn lemma_terminator_resets(cap: nat, pushes: Seq<char>, k: int)
    requires
        0 <= k < pushes.len(),
        is_line_terminator(pushes[k]),
        forall|j: int| k < j < pushes.len() ==> !is_line_terminator(pushes[j]),
    ensures
        buffer_after(cap, pushes) == buffer_after(cap, pushes.skip(k + 1)),
    decreases pushes.len(),
{
    if k == pushes.len() - 1 {
        assert(buffer_after(cap, pushes.skip(k + 1)) =~= Seq::<char>::empty());
    } else {
        let dl = pushes.drop_last();
        lemma_terminator_resets(cap, dl, k);
        assert(pushes.skip(k + 1).drop_last() =~= dl.skip(k + 1));
        assert(pushes.skip(k + 1).last() == pushes.last());
    }
}

} // verus!
