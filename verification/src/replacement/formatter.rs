//! Expansion of date/time templates.
//!
//! A template is either a bare pattern of placeholder tokens (`yyyy`, `yy`,
//! `MM`, `dd`, `HH`, `mm`, `ss`) or a longer text with embedded
//! `{date:<pattern>}` spans. Each token is replaced by the corresponding
//! zero-padded calendar field of the wall clock read at format time; all
//! other characters are kept as they stand.

use chrono::{Datelike, Timelike};
use vstd::prelude::*;

use crate::text::{chars_to_string, str_to_chars};

verus! {

/// A wall-clock reading, split into plain calendar fields.
#[derive(Debug, Clone, Copy, PartialEq, Eq, Structural)]
pub struct LocalTime {
    /// Calendar year, clamped into `0..=9999` so it prints as four digits.
    pub year: u32,
    /// Month, `1..=12`.
    pub month: u32,
    /// Day of month, `1..=31`.
    pub day: u32,
    /// Hour, `0..=23`.
    pub hour: u32,
    /// Minute, `0..=59`.
    pub minute: u32,
    /// Second, `0..=59`.
    pub second: u32,
}

impl LocalTime {
    /// Every field within its calendar range.
    pub open spec fn wf(&self) -> bool {
        &&& self.year <= 9999
        &&& 1 <= self.month <= 12
        &&& 1 <= self.day <= 31
        &&& self.hour <= 23
        &&& self.minute <= 59
        &&& self.second <= 59
    }

    /// Builds a reading from its fields.
    pub fn new(year: u32, month: u32, day: u32, hour: u32, minute: u32, second: u32) -> (r: Self)
        requires
            year <= 9999,
            1 <= month <= 12,
            1 <= day <= 31,
            hour <= 23,
            minute <= 59,
            second <= 59,
        ensures
            r == (LocalTime { year, month, day, hour, minute, second }),
            r.wf(),
    {
        LocalTime { year, month, day, hour, minute, second }
    }
}

/// The decimal digit character for `d < 10`.
pub open spec fn digit_char(d: nat) -> char {
    ((d + 0x30) as u8) as char
}

/// `n < 100` rendered as exactly two decimal digits.
pub open spec fn two_digits(n: nat) -> Seq<char> {
    seq![digit_char(n / 10), digit_char(n % 10)]
}

/// `n <= 9999` rendered as exactly four decimal digits.
pub open spec fn four_digits(n: nat) -> Seq<char> {
    seq![
        digit_char(n / 1000),
        digit_char((n / 100) % 10),
        digit_char((n / 10) % 10),
        digit_char(n % 10),
    ]
}

/// An ASCII decimal digit.
pub open spec fn is_ascii_digit(c: char) -> bool {
    '0' <= c && c <= '9'
}

/// Digit characters are digits.
pub proof fn lemma_digit_char_is_digit(d: nat)
    requires
        d < 10,
    ensures
        is_ascii_digit(digit_char(d)),
{
}

fn push_digit(out: &mut Vec<char>, d: u32)
    requires
        d < 10,
    ensures
        final(out)@ == old(out)@.push(digit_char(d as nat)),
{
    out.push(((d + 0x30) as u8) as char);
}

fn push_two_digits(out: &mut Vec<char>, n: u32)
    requires
        n < 100,
    ensures
        final(out)@ == old(out)@ + two_digits(n as nat),
{
    push_digit(out, n / 10);
    push_digit(out, n % 10);
    proof {
        assert(out@ =~= old(out)@ + two_digits(n as nat));
    }
}

fn push_four_digits(out: &mut Vec<char>, n: u32)
    requires
        n <= 9999,
    ensures
        final(out)@ == old(out)@ + four_digits(n as nat),
{
    push_digit(out, n / 1000);
    push_digit(out, (n / 100) % 10);
    push_digit(out, (n / 10) % 10);
    push_digit(out, n % 10);
    proof {
        assert(out@ =~= old(out)@ + four_digits(n as nat));
    }
}

/// One of the placeholder tokens starts at position `i` of `p`.
pub open spec fn token_at(p: Seq<char>, i: int) -> bool {
    ||| (i + 4 <= p.len() && p[i] == 'y' && p[i + 1] == 'y' && p[i + 2] == 'y' && p[i + 3] == 'y')
    ||| (i + 2 <= p.len() && p[i] == 'y' && p[i + 1] == 'y')
    ||| (i + 2 <= p.len() && p[i] == 'M' && p[i + 1] == 'M')
    ||| (i + 2 <= p.len() && p[i] == 'd' && p[i + 1] == 'd')
    ||| (i + 2 <= p.len() && p[i] == 'H' && p[i + 1] == 'H')
    ||| (i + 2 <= p.len() && p[i] == 'm' && p[i + 1] == 'm')
    ||| (i + 2 <= p.len() && p[i] == 's' && p[i + 1] == 's')
}

/// A bare pattern expanded against the reading `t`: tokens become the
/// zero-padded calendar fields, every other character is copied. `yyyy` is
/// matched before `yy`; tokens are consumed left to right.
pub open spec fn spec_format_pattern(p: Seq<char>, t: LocalTime) -> Seq<char>
    decreases p.len(),
{
    if p.len() == 0 {
        Seq::empty()
    } else if p.len() >= 4 && p[0] == 'y' && p[1] == 'y' && p[2] == 'y' && p[3] == 'y' {
        four_digits(t.year as nat) + spec_format_pattern(p.skip(4), t)
    } else if p.len() >= 2 && p[0] == 'y' && p[1] == 'y' {
        two_digits((t.year % 100) as nat) + spec_format_pattern(p.skip(2), t)
    } else if p.len() >= 2 && p[0] == 'M' && p[1] == 'M' {
        two_digits(t.month as nat) + spec_format_pattern(p.skip(2), t)
    } else if p.len() >= 2 && p[0] == 'd' && p[1] == 'd' {
        two_digits(t.day as nat) + spec_format_pattern(p.skip(2), t)
    } else if p.len() >= 2 && p[0] == 'H' && p[1] == 'H' {
        two_digits(t.hour as nat) + spec_format_pattern(p.skip(2), t)
    } else if p.len() >= 2 && p[0] == 'm' && p[1] == 'm' {
        two_digits(t.minute as nat) + spec_format_pattern(p.skip(2), t)
    } else if p.len() >= 2 && p[0] == 's' && p[1] == 's' {
        two_digits(t.second as nat) + spec_format_pattern(p.skip(2), t)
    } else {
        seq![p[0]] + spec_format_pattern(p.skip(1), t)
    }
}

/// Expands a bare pattern, one token or character at a time.
fn format_pattern_chars(p: &Vec<char>, t: &LocalTime) -> (out: Vec<char>)
    requires
        t.wf(),
    ensures
        out@ == spec_format_pattern(p@, *t),
{
    let n = p.len();
    let mut out: Vec<char> = Vec::new();
    let mut i: usize = 0;
    proof {
        assert(p@.skip(0) =~= p@);
    }
    while i < n
        invariant
            t.wf(),
            i <= n,
            n == p@.len(),
            spec_format_pattern(p@, *t) == out@ + spec_format_pattern(p@.skip(i as int), *t),
        decreases n - i,
    {
        let ghost rest = p@.skip(i as int);
        let ghost out0 = out@;
        if n - i >= 4 && p[i] == 'y' && p[i + 1] == 'y' && p[i + 2] == 'y' && p[i + 3] == 'y' {
            push_four_digits(&mut out, t.year);
            i = i + 4;
            proof {
                assert(rest.skip(4) =~= p@.skip(i as int));
                assert(out@ + spec_format_pattern(p@.skip(i as int), *t) =~= out0
                    + spec_format_pattern(rest, *t));
            }
        } else if n - i >= 2 && p[i] == 'y' && p[i + 1] == 'y' {
            push_two_digits(&mut out, t.year % 100);
            i = i + 2;
            proof {
                assert(rest.skip(2) =~= p@.skip(i as int));
                assert(out@ + spec_format_pattern(p@.skip(i as int), *t) =~= out0
                    + spec_format_pattern(rest, *t));
            }
        } else if n - i >= 2 && p[i] == 'M' && p[i + 1] == 'M' {
            push_two_digits(&mut out, t.month);
            i = i + 2;
            proof {
                assert(rest.skip(2) =~= p@.skip(i as int));
                assert(out@ + spec_format_pattern(p@.skip(i as int), *t) =~= out0
                    + spec_format_pattern(rest, *t));
            }
        } else if n - i >= 2 && p[i] == 'd' && p[i + 1] == 'd' {
            push_two_digits(&mut out, t.day);
            i = i + 2;
            proof {
                assert(rest.skip(2) =~= p@.skip(i as int));
                assert(out@ + spec_format_pattern(p@.skip(i as int), *t) =~= out0
                    + spec_format_pattern(rest, *t));
            }
        } else if n - i >= 2 && p[i] == 'H' && p[i + 1] == 'H' {
            push_two_digits(&mut out, t.hour);
            i = i + 2;
            proof {
                assert(rest.skip(2) =~= p@.skip(i as int));
                assert(out@ + spec_format_pattern(p@.skip(i as int), *t) =~= out0
                    + spec_format_pattern(rest, *t));
            }
        } else if n - i >= 2 && p[i] == 'm' && p[i + 1] == 'm' {
            push_two_digits(&mut out, t.minute);
            i = i + 2;
            proof {
                assert(rest.skip(2) =~= p@.skip(i as int));
                assert(out@ + spec_format_pattern(p@.skip(i as int), *t) =~= out0
                    + spec_format_pattern(rest, *t));
            }
        } else if n - i >= 2 && p[i] == 's' && p[i + 1] == 's' {
            push_two_digits(&mut out, t.second);
            i = i + 2;
            proof {
                assert(rest.skip(2) =~= p@.skip(i as int));
                assert(out@ + spec_format_pattern(p@.skip(i as int), *t) =~= out0
                    + spec_format_pattern(rest, *t));
            }
        } else {
            out.push(p[i]);
            i = i + 1;
            proof {
                assert(out@ =~= out0 + seq![rest[0]]);
                assert(rest.skip(1) =~= p@.skip(i as int));
                assert(out@ + spec_format_pattern(p@.skip(i as int), *t) =~= out0
                    + spec_format_pattern(rest, *t));
            }
        }
    }
    proof {
        assert(p@.skip(n as int) =~= Seq::<char>::empty());
        assert(out@ =~= out@ + Seq::<char>::empty());
    }
    out
}

/// Index of the first `}` at or after `from`, if any.
pub open spec fn find_close(s: Seq<char>, from: int) -> Option<int>
    decreases s.len() - from when 0 <= from <= s.len()
{
    if from >= s.len() {
        None
    } else if s[from] == '}' {
        Some(from)
    } else {
        find_close(s, from + 1)
    }
}

/// Searching a suffix finds the same closing brace, shifted.
pub proof fn lemma_find_close_shift(s: Seq<char>, d: int, from: int)
    requires
        0 <= d,
        0 <= from,
        d + from <= s.len(),
    ensures
        find_close(s.skip(d), from) == match find_close(s, d + from) {
            Some(j) => Some(j - d),
            None => None::<int>,
        },
    decreases s.len() - (d + from),
{
    if d + from < s.len() && s[d + from] != '}' {
        lemma_find_close_shift(s, d, from + 1);
    }
}

/// A complete `{date:<pattern>}` span, with a non-empty pattern, starts at
/// position `i` of `s`.
pub open spec fn span_at(s: Seq<char>, i: int) -> bool {
    &&& 0 <= i
    &&& i + 6 <= s.len()
    &&& s[i] == '{' && s[i + 1] == 'd' && s[i + 2] == 'a' && s[i + 3] == 't' && s[i + 4] == 'e'
        && s[i + 5] == ':'
    &&& match find_close(s, i + 6) {
        Some(j) => i + 6 < j < s.len(),
        None => false,
    }
}

/// The index of the `}` closing the span that starts at position 0.
pub open spec fn span_close(s: Seq<char>) -> int {
    find_close(s, 6)->Some_0
}

/// `s` with every complete `{date:<pattern>}` span replaced by its expanded
/// pattern, and everything outside the spans kept as it stands.
pub open spec fn spec_replace_spans(s: Seq<char>, t: LocalTime) -> Seq<char>
    decreases s.len(),
{
    if s.len() == 0 {
        Seq::empty()
    } else if span_at(s, 0) {
        spec_format_pattern(s.subrange(6, span_close(s)), t) + spec_replace_spans(
            s.skip(span_close(s) + 1),
            t,
        )
    } else {
        seq![s[0]] + spec_replace_spans(s.skip(1), t)
    }
}

/// `s` holds at least one complete `{date:<pattern>}` span.
pub open spec fn contains_span(s: Seq<char>) -> bool
    decreases s.len(),
{
    if s.len() == 0 {
        false
    } else {
        span_at(s, 0) || contains_span(s.skip(1))
    }
}

/// A span at position `i` of `s` is a span at the head of `s.skip(i)`.
pub proof fn lemma_span_shift(s: Seq<char>, i: int)
    requires
        0 <= i <= s.len(),
    ensures
        span_at(s.skip(i), 0) == span_at(s, i),
        span_at(s, i) ==> find_close(s.skip(i), 6) == Some(span_close(s.skip(i)))
            && span_close(s.skip(i)) + i == find_close(s, i + 6)->Some_0,
{
    if i + 6 <= s.len() {
        lemma_find_close_shift(s, i, 6);
    }
}

/// Finds the first `}` at or after `from`.
fn find_close_from(chars: &Vec<char>, from: usize) -> (r: Option<usize>)
    requires
        from <= chars@.len(),
    ensures
        match r {
            Some(j) => from <= j < chars@.len() && find_close(chars@, from as int) == Some(
                j as int,
            ),
            None => find_close(chars@, from as int) is None,
        },
{
    let n = chars.len();
    let mut i: usize = from;
    while i < n
        invariant
            from <= i <= n,
            n == chars@.len(),
            find_close(chars@, from as int) == find_close(chars@, i as int),
        decreases n - i,
    {
        if chars[i] == '}' {
            return Some(i);
        }
        i = i + 1;
    }
    None
}

/// Decides whether a complete span starts at position `i`, returning the
/// index of its closing brace.
fn span_close_at(chars: &Vec<char>, i: usize) -> (r: Option<usize>)
    requires
        i < chars@.len(),
    ensures
        match r {
            Some(j) => span_at(chars@, i as int) && find_close(chars@, i as int + 6) == Some(
                j as int,
            ) && i + 6 < j < chars@.len(),
            None => !span_at(chars@, i as int),
        },
{
    let n = chars.len();
    if n - i < 6 {
        return None;
    }
    if chars[i] == '{' && chars[i + 1] == 'd' && chars[i + 2] == 'a' && chars[i + 3] == 't'
        && chars[i + 4] == 'e' && chars[i + 5] == ':' {
        match find_close_from(chars, i + 6) {
            Some(j) => {
                if j > i + 6 {
                    Some(j)
                } else {
                    None
                }
            },
            None => None,
        }
    } else {
        None
    }
}

/// True when the text holds at least one complete `{date:<pattern>}` span.
fn has_span(chars: &Vec<char>) -> (r: bool)
    ensures
        r == contains_span(chars@),
{
    let n = chars.len();
    let mut i: usize = 0;
    proof {
        assert(chars@.skip(0) =~= chars@);
    }
    while i < n
        invariant
            i <= n,
            n == chars@.len(),
            contains_span(chars@) == contains_span(chars@.skip(i as int)),
        decreases n - i,
    {
        let ghost rest = chars@.skip(i as int);
        if span_close_at(chars, i).is_some() {
            proof {
                lemma_span_shift(chars@, i as int);
            }
            return true;
        }
        i = i + 1;
        proof {
            lemma_span_shift(chars@, i as int - 1);
            assert(rest.skip(1) =~= chars@.skip(i as int));
        }
    }
    proof {
        assert(chars@.skip(n as int) =~= Seq::<char>::empty());
    }
    false
}

/// Replaces every complete `{date:<pattern>}` span of `chars` with its
/// expanded pattern, keeping everything outside the spans.
fn replace_spans_chars(chars: &Vec<char>, t: &LocalTime) -> (out: Vec<char>)
    requires
        t.wf(),
    ensures
        out@ == spec_replace_spans(chars@, *t),
{
    let n = chars.len();
    let mut out: Vec<char> = Vec::new();
    let mut i: usize = 0;
    proof {
        assert(chars@.skip(0) =~= chars@);
    }
    while i < n
        invariant
            t.wf(),
            i <= n,
            n == chars@.len(),
            spec_replace_spans(chars@, *t) == out@ + spec_replace_spans(
                chars@.skip(i as int),
                *t,
            ),
        decreases n - i,
    {
        let ghost rest = chars@.skip(i as int);
        let ghost out0 = out@;
        match span_close_at(chars, i) {
            Some(j) => {
                proof {
                    lemma_span_shift(chars@, i as int);
                }
                let mut content: Vec<char> = Vec::new();
                let mut k: usize = i + 6;
                while k < j
                    invariant
                        i + 6 <= k <= j,
                        j < chars@.len(),
                        content@ == chars@.subrange(i as int + 6, k as int),
                    decreases j - k,
                {
                    content.push(chars[k]);
                    proof {
                        assert(content@ =~= chars@.subrange(i as int + 6, k as int + 1));
                    }
                    k = k + 1;
                }
                let mut expanded = format_pattern_chars(&content, t);
                proof {
                    assert(rest.subrange(6, j - i as int) =~= content@);
                    assert(rest.skip(j - i as int + 1) =~= chars@.skip(j as int + 1));
                }
                out.append(&mut expanded);
                i = j + 1;
                proof {
                    assert(out@ + spec_replace_spans(chars@.skip(i as int), *t) =~= out0
                        + spec_replace_spans(rest, *t));
                }
            },
            None => {
                out.push(chars[i]);
                i = i + 1;
                proof {
                    lemma_span_shift(chars@, i as int - 1);
                    assert(out@ =~= out0 + seq![rest[0]]);
                    assert(rest.skip(1) =~= chars@.skip(i as int));
                    assert(out@ + spec_replace_spans(chars@.skip(i as int), *t) =~= out0
                        + spec_replace_spans(rest, *t));
                }
            },
        }
    }
    proof {
        assert(chars@.skip(n as int) =~= Seq::<char>::empty());
        assert(out@ =~= out@ + Seq::<char>::empty());
    }
    out
}

/// A whole template expanded against the reading `t`: a template with at
/// least one complete `{date:<pattern>}` span has exactly its spans
/// replaced; any other template is treated as one bare pattern.
pub open spec fn spec_format(template: Seq<char>, t: LocalTime) -> Seq<char> {
    if contains_span(template) {
        spec_replace_spans(template, t)
    } else {
        spec_format_pattern(template, t)
    }
}

/// Expands a template against an explicit wall-clock reading.
pub fn format_with_time(template: &str, t: &LocalTime) -> (r: String)
    requires
        t.wf(),
    ensures
        r@ == spec_format(template@, *t),
{
    let chars = str_to_chars(template);
    let out = if has_span(&chars) {
        replace_spans_chars(&chars, t)
    } else {
        format_pattern_chars(&chars, t)
    };
    chars_to_string(&out)
}

/// A template with no placeholder token anywhere and no complete
/// `{date:<pattern>}` span is returned unchanged, whatever the clock says.
pub proof fn lemma_plain_text_unchanged(s: Seq<char>, t: LocalTime)
    requires
        forall|i: int| 0 <= i < s.len() ==> !token_at(s, i),
        !contains_span(s),
    ensures
        spec_format(s, t) == s,
    decreases s.len(),
{
    if s.len() == 0 {
        assert(spec_format_pattern(s, t) =~= s);
    } else {
        assert(!token_at(s, 0));
        let tail = s.skip(1);
        assert forall|i: int| 0 <= i < tail.len() implies !token_at(tail, i) by {
            if token_at(tail, i) {
                assert forall|k: int| 0 <= k < tail.len() implies tail[k] == s[k + 1] by {}
                assert(token_at(s, i + 1));
            }
        }
        assert(!contains_span(tail));
        lemma_plain_text_unchanged(tail, t);
        assert(spec_format_pattern(s, t) == seq![s[0]] + spec_format_pattern(tail, t));
        assert(spec_format_pattern(s, t) =~= s);
    }
}

/// The time-of-day template expands to exactly eight characters shaped
/// `dd:dd:dd`: the zero-padded hour, minute and second, for every
/// well-formed clock reading.
pub proof fn lemma_time_span_shape(t: LocalTime)
    requires
        t.wf(),
    ensures
        spec_format("{date:HH:mm:ss}"@, t) == two_digits(t.hour as nat) + seq![':'] + two_digits(
            t.minute as nat,
        ) + seq![':'] + two_digits(t.second as nat),
        spec_format("{date:HH:mm:ss}"@, t).len() == 8,
        is_ascii_digit(spec_format("{date:HH:mm:ss}"@, t)[0]),
        is_ascii_digit(spec_format("{date:HH:mm:ss}"@, t)[1]),
        spec_format("{date:HH:mm:ss}"@, t)[2] == ':',
        is_ascii_digit(spec_format("{date:HH:mm:ss}"@, t)[3]),
        is_ascii_digit(spec_format("{date:HH:mm:ss}"@, t)[4]),
        spec_format("{date:HH:mm:ss}"@, t)[5] == ':',
        is_ascii_digit(spec_format("{date:HH:mm:ss}"@, t)[6]),
        is_ascii_digit(spec_format("{date:HH:mm:ss}"@, t)[7]),
{
    reveal_strlit("{date:HH:mm:ss}");
    let s = "{date:HH:mm:ss}"@;
    assert(s.len() == 15);
    assert(find_close(s, 6) == Some(14int)) by {
        reveal_with_fuel(find_close, 11);
    }
    assert(span_at(s, 0));
    assert(contains_span(s)) by {
        reveal_with_fuel(contains_span, 2);
    }
    assert(span_close(s) == 14);
    let p = s.subrange(6, 14);
    let tail = s.skip(15);
    assert(tail =~= Seq::<char>::empty());
    assert(spec_replace_spans(tail, t) == Seq::<char>::empty());
    assert(spec_replace_spans(s, t) == spec_format_pattern(p, t) + spec_replace_spans(tail, t));
    // expand the pattern "HH:mm:ss" token by token
    assert(p.len() == 8);
    assert(p[0] == 'H' && p[1] == 'H');
    let p2 = p.skip(2);
    assert(p2.len() == 6 && p2[0] == ':');
    let p3 = p2.skip(1);
    assert(p3 =~= p.skip(3));
    assert(p3.len() == 5 && p3[0] == 'm' && p3[1] == 'm');
    let p4 = p3.skip(2);
    assert(p4 =~= p.skip(5));
    assert(p4.len() == 3 && p4[0] == ':');
    let p5 = p4.skip(1);
    assert(p5 =~= p.skip(6));
    assert(p5.len() == 2 && p5[0] == 's' && p5[1] == 's');
    let p6 = p5.skip(2);
    assert(p6.len() == 0);
    assert(spec_format_pattern(p6, t) == Seq::<char>::empty());
    assert(spec_format_pattern(p5, t) == two_digits(t.second as nat) + spec_format_pattern(
        p6,
        t,
    ));
    assert(spec_format_pattern(p4, t) == seq![':'] + spec_format_pattern(p5, t));
    assert(spec_format_pattern(p3, t) == two_digits(t.minute as nat) + spec_format_pattern(
        p4,
        t,
    ));
    assert(spec_format_pattern(p2, t) == seq![':'] + spec_format_pattern(p3, t));
    assert(spec_format_pattern(p, t) == two_digits(t.hour as nat) + spec_format_pattern(p2, t));
    let out = two_digits(t.hour as nat) + seq![':'] + two_digits(t.minute as nat) + seq![':']
        + two_digits(t.second as nat);
    assert(spec_format(s, t) =~= out);
    lemma_digit_char_is_digit((t.hour / 10) as nat);
    lemma_digit_char_is_digit((t.hour % 10) as nat);
    lemma_digit_char_is_digit((t.minute / 10) as nat);
    lemma_digit_char_is_digit((t.minute % 10) as nat);
    lemma_digit_char_is_digit((t.second / 10) as nat);
    lemma_digit_char_is_digit((t.second % 10) as nat);
    assert(out =~= seq![
        digit_char((t.hour / 10) as nat),
        digit_char((t.hour % 10) as nat),
        ':',
        digit_char((t.minute / 10) as nat),
        digit_char((t.minute % 10) as nat),
        ':',
        digit_char((t.second / 10) as nat),
        digit_char((t.second % 10) as nat),
    ]);
}

/// Relies on `chrono::Local::now` for the wall clock, and on the `Datelike`
/// and `Timelike` accessors, whose documentation bounds the fields: month
/// in `1..=12`, day in `1..=31`, hour in `0..=23`, minute and second in
/// `0..=59`. The year is returned as chrono reports it.
#[verifier::external_body]
fn now_local_fields() -> (r: (i32, u32, u32, u32, u32, u32))
    ensures
        1 <= r.1 <= 12,
        1 <= r.2 <= 31,
        r.3 <= 23,
        r.4 <= 59,
        r.5 <= 59,
{
    let now = chrono::Local::now();
    (now.year(), now.month(), now.day(), now.hour(), now.minute(), now.second())
}

/// Reads the wall clock, clamping the year into `0..=9999` so that it
/// always prints as four digits.
fn now_local_time() -> (t: LocalTime)
    ensures
        t.wf(),
{
    let (y, mo, d, h, mi, s) = now_local_fields();
    let year: u32 = if y < 0 {
        0
    } else if y > 9999 {
        9999
    } else {
        y as u32
    };
    LocalTime::new(year, mo, d, h, mi, s)
}

/// Expands a date/time template against the wall clock read now: some
/// well-formed clock reading explains the output exactly.
pub fn format_dynamic_content(template: &str) -> (r: String)
    ensures
        exists|t: LocalTime| t.wf() && r@ == spec_format(template@, t),
{
    let t = now_local_time();
    let r = format_with_time(template, &t);
    proof {
        assert(t.wf() && r@ == spec_format(template@, t));
    }
    r
}

} // verus!
