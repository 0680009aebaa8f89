//! Small helpers around the engine: the exit flag read, the detection of
//! other text-expansion tools among running process names, and the
//! wide-string conversion the OS shell calls need.

use vstd::prelude::*;

use crate::text::str_to_chars;

verus! {

/// Reads the application's exit flag: true only when the flag could be
/// read and is set. The caller passes `None` for a flag it could not read
/// (a poisoned lock), which counts as "do not exit".
pub fn check_should_exit(flag: Option<bool>) -> (r: bool)
    ensures
        r == (flag == Some(true)),
{
    match flag {
        Some(b) => b,
        None => false,
    }
}

/// ASCII lower-casing of one character; anything outside `A..=Z` is kept.
pub open spec fn ascii_lower(c: char) -> char {
    if 'A' <= c && c <= 'Z' {
        (((c as u8) + 32) as u8) as char
    } else {
        c
    }
}

/// Pointwise ASCII lower-casing.
pub open spec fn lower_seq(s: Seq<char>) -> Seq<char> {
    s.map_values(|c: char| ascii_lower(c))
}

fn lower_chars(v: &Vec<char>) -> (out: Vec<char>)
    ensures
        out@ == lower_seq(v@),
{
    let mut out: Vec<char> = Vec::new();
    let mut i: usize = 0;
    while i < v.len()
        invariant
            i <= v@.len(),
            out@ == lower_seq(v@.subrange(0, i as int)),
        decreases v@.len() - i,
    {
        let c = v[i];
        if 'A' <= c && c <= 'Z' {
            out.push((((c as u8) + 32) as u8) as char);
        } else {
            out.push(c);
        }
        i = i + 1;
        proof {
            assert(out@ =~= lower_seq(v@.subrange(0, i as int)));
        }
    }
    proof {
        assert(out@ =~= lower_seq(v@));
    }
    out
}

fn chars_eq(a: &Vec<char>, b: &Vec<char>) -> (r: bool)
    ensures
        r == (a@ == b@),
{
    if a.len() != b.len() {
        return false;
    }
    let mut i: usize = 0;
    while i < a.len()
        invariant
            i <= a@.len(),
            a@.len() == b@.len(),
            forall|j: int| 0 <= j < i ==> a@[j] == b@[j],
        decreases a@.len() - i,
    {
        if a[i] != b[i] {
            return false;
        }
        i = i + 1;
    }
    proof {
        assert(a@ =~= b@);
    }
    true
}

/// `s` names one of the known conflicting text-expansion tools, compared
/// without regard to ASCII case.
pub open spec fn is_conflicting_name(s: Seq<char>) -> bool {
    ||| lower_seq(s) == lower_seq("PhraseExpress.exe"@)
    ||| lower_seq(s) == lower_seq("TextExpander.exe"@)
    ||| lower_seq(s) == lower_seq("Breevy.exe"@)
    ||| lower_seq(s) == lower_seq("TypeItIn.exe"@)
    ||| lower_seq(s) == lower_seq("AutoHotkey.exe"@)
    ||| lower_seq(s) == lower_seq("ActiveWords.exe"@)
    ||| lower_seq(s) == lower_seq("FastKeys.exe"@)
    ||| lower_seq(s) == lower_seq("AutoText.exe"@)
    ||| lower_seq(s) == lower_seq("TyperTask.exe"@)
}

fn is_conflicting_tool_name(name: &Vec<char>) -> (r: bool)
    ensures
        r == is_conflicting_name(name@),
{
    let ln = lower_chars(name);
    if chars_eq(&ln, &lower_chars(&str_to_chars("PhraseExpress.exe"))) {
        return true;
    }
    if chars_eq(&ln, &lower_chars(&str_to_chars("TextExpander.exe"))) {
        return true;
    }
    if chars_eq(&ln, &lower_chars(&str_to_chars("Breevy.exe"))) {
        return true;
    }
    if chars_eq(&ln, &lower_chars(&str_to_chars("TypeItIn.exe"))) {
        return true;
    }
    if chars_eq(&ln, &lower_chars(&str_to_chars("AutoHotkey.exe"))) {
        return true;
    }
    if chars_eq(&ln, &lower_chars(&str_to_chars("ActiveWords.exe"))) {
        return true;
    }
    if chars_eq(&ln, &lower_chars(&str_to_chars("FastKeys.exe"))) {
        return true;
    }
    if chars_eq(&ln, &lower_chars(&str_to_chars("AutoText.exe"))) {
        return true;
    }
    if chars_eq(&ln, &lower_chars(&str_to_chars("TyperTask.exe"))) {
        return true;
    }
    false
}

/// Every name in `out` is a conflicting name out of `names`.
pub open spec fn conflicts_sound(names: Seq<String>, out: Seq<String>) -> bool {
    forall|k: int| 0 <= k < out.len() ==> is_conflicting_name(#[trigger] out[k]@) && (exists|j: int|
        0 <= j < names.len() && names[j]@ == out[k]@)
}

/// Every conflicting name among the first `upto` of `names` is in `out`.
pub open spec fn conflicts_complete(names: Seq<String>, out: Seq<String>, upto: int) -> bool {
    forall|j: int| 0 <= j < upto && is_conflicting_name(#[trigger] names[j]@) ==> exists|k: int|
        0 <= k < out.len() && out[k]@ == names[j]@
}

/// Picks out of `process_names` those that name a known conflicting
/// text-expansion tool, compared without regard to ASCII case: every
/// returned name is a conflicting input name, and every conflicting input
/// name is returned.
pub fn find_conflicting_tools(process_names: &Vec<String>) -> (out: Vec<String>)
    ensures
        conflicts_sound(process_names@, out@),
        conflicts_complete(process_names@, out@, process_names@.len() as int),
{
    let mut out: Vec<String> = Vec::new();
    let mut i: usize = 0;
    while i < process_names.len()
        invariant
            i <= process_names@.len(),
            conflicts_sound(process_names@, out@),
            conflicts_complete(process_names@, out@, i as int),
        decreases process_names@.len() - i,
    {
        let ghost out0 = out@;
        let name = &process_names[i];
        let name_chars = str_to_chars(name.as_str());
        if is_conflicting_tool_name(&name_chars) {
            out.push(name.clone());
            proof {
                let l = out@.len() - 1;
                assert(out@[l]@ == process_names@[i as int]@);
                assert forall|k: int| 0 <= k < out@.len() implies is_conflicting_name(
                    #[trigger] out@[k]@,
                ) && (exists|j: int| 0 <= j < process_names@.len() && process_names@[j]@
                    == out@[k]@) by {
                    if k < l {
                        assert(out@[k] == out0[k]);
                    } else {
                        assert(0 <= i < process_names@.len() && process_names@[i as int]@
                            == out@[k]@);
                    }
                }
            }
        }
        i = i + 1;
        proof {
            assert forall|j: int|
                0 <= j < i && is_conflicting_name(
                    #[trigger] process_names@[j]@,
                ) implies exists|k: int| 0 <= k < out@.len() && out@[k]@ == process_names@[j]@ by {
                if j == i - 1 {
                    assert(out@[out@.len() - 1]@ == process_names@[j]@);
                } else {
                    let k0 = choose|k: int| 0 <= k < out0.len() && out0[k]@ == process_names@[j]@;
                    assert(out@[k0]@ == process_names@[j]@);
                }
            }
        }
    }
    out
}

/// One character as UTF-16 code units, from its scalar value.
pub open spec fn utf16_units_of(u: u32) -> Seq<u16> {
    if u < 0x10000 {
        seq![u as u16]
    } else {
        seq![(0xD800 + ((u - 0x10000) / 0x400)) as u16, (0xDC00 + ((u - 0x10000) % 0x400)) as u16]
    }
}

/// A character sequence as UTF-16 code units.
pub open spec fn utf16_encode(s: Seq<char>) -> Seq<u16>
    decreases s.len(),
{
    if s.len() == 0 {
        Seq::empty()
    } else {
        utf16_units_of(s[0] as u32) + utf16_encode(s.skip(1))
    }
}

/// One unfolding step of `utf16_encode` on a non-empty sequence.
proof fn lemma_utf16_encode_unfold(s: Seq<char>)
    requires
        s.len() > 0,
    ensures
        utf16_encode(s) == utf16_units_of(s[0] as u32) + utf16_encode(s.skip(1)),
{
    reveal_with_fuel(utf16_encode, 3);
}

/// Encodes a string as the OS shell expects it: UTF-16 code units with a
/// terminating zero.
pub fn windows_to_wide(s: &str) -> (out: Vec<u16>)
    ensures
        out@ == utf16_encode(s@).push(0u16),
{
    let chars = str_to_chars(s);
    let n = chars.len();
    let mut out: Vec<u16> = Vec::new();
    let mut i: usize = 0;
    proof {
        assert(chars@.skip(0) =~= chars@);
    }
    while i < n
        invariant
            i <= n,
            n == chars@.len(),
            chars@ == s@,
            utf16_encode(s@) == out@ + utf16_encode(chars@.skip(i as int)),
        decreases n - i,
    {
        let ghost rest = chars@.skip(i as int);
        let ghost out0 = out@;
        let u = chars[i] as u32;
        proof {
            vstd::utf8::char_is_scalar(chars@[i as int]);
        }
        proof {
            assert(rest[0] == chars@[i as int]);
            assert(rest[0] as u32 == u);
        }
        if u < 0x10000 {
            out.push(u as u16);
            proof {
                assert(utf16_units_of(rest[0] as u32) =~= seq![u as u16]);
                assert(out@ =~= out0 + utf16_units_of(rest[0] as u32));
            }
        } else {
            let off = u - 0x10000;
            assert(off / 0x400 <= 0x3FF && off % 0x400 <= 0x3FF);
            let hi: u16 = 0xD800 + (off / 0x400) as u16;
            let lo: u16 = 0xDC00 + (off % 0x400) as u16;
            out.push(hi);
            out.push(lo);
            proof {
                assert(hi as int == 0xD800 + ((u - 0x10000) / 0x400));
                assert(lo as int == 0xDC00 + ((u - 0x10000) % 0x400));
                assert(utf16_units_of(rest[0] as u32) =~= seq![hi, lo]);
                assert(out@ =~= out0 + utf16_units_of(rest[0] as u32));
            }
        }
        i = i + 1;
        proof {
            lemma_utf16_encode_unfold(rest);
            assert(rest.skip(1) =~= chars@.skip(i as int));
            assert(out@ + utf16_encode(chars@.skip(i as int)) =~= out0 + utf16_encode(rest));
        }
    }
    proof {
        assert(chars@.skip(n as int) =~= Seq::<char>::empty());
        assert(out@ =~= out@ + utf16_encode(chars@.skip(n as int)));
    }
    out.push(0);
    out
}

} // verus!
