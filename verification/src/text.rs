//! Character and string utilities shared by the buffer, the matcher and the
//! configuration store: conversions between `String` and `Vec<char>`, the
//! suffix test used for keyword matching, and the normalization that maps
//! the characters reserved by the persistence format (`=`, `;`, `,`) to `_`.

use vstd::prelude::*;

verus! {

/// Relies on `String::push`: appends the given character to the end of the
/// string.
pub assume_specification[ String::push ](s: &mut String, ch: char)
    ensures
        final(s)@ == old(s)@.push(ch),
;

/// Builds an owned string out of a character sequence.
pub fn chars_to_string(v: &Vec<char>) -> (r: String)
    ensures
        r@ == v@,
{
    let mut r = String::new();
    let mut i: usize = 0;
    while i < v.len()
        invariant
            i <= v@.len(),
            r@ == v@.subrange(0, i as int),
        decreases v@.len() - i,
    {
        r.push(v[i]);
        i = i + 1;
        proof {
            assert(r@ =~= v@.subrange(0, i as int));
        }
    }
    proof {
        assert(r@ =~= v@);
    }
    r
}

/// Collects the characters of a string slice.
pub fn str_to_chars(s: &str) -> (r: Vec<char>)
    ensures
        r@ == s@,
{
    let n = s.unicode_len();
    let mut r: Vec<char> = Vec::new();
    let mut i: usize = 0;
    while i < n
        invariant
            i <= n,
            n == s@.len(),
            r@ == s@.subrange(0, i as int),
        decreases n - i,
    {
        r.push(s.get_char(i));
        i = i + 1;
        proof {
            assert(r@ =~= s@.subrange(0, i as int));
        }
    }
    proof {
        assert(r@ =~= s@);
    }
    r
}

/// True when `s` ends with `suffix`.
pub open spec fn seq_ends_with(s: Seq<char>, suffix: Seq<char>) -> bool {
    suffix.len() <= s.len() && s.skip(s.len() - suffix.len()) == suffix
}

/// Suffix test over character vectors.
pub fn chars_end_with(hay: &Vec<char>, needle: &Vec<char>) -> (r: bool)
    ensures
        r == seq_ends_with(hay@, needle@),
{
    if needle.len() > hay.len() {
        return false;
    }
    let start = hay.len() - needle.len();
    let mut i: usize = 0;
    while i < needle.len()
        invariant
            i <= needle@.len(),
            needle@.len() <= hay@.len(),
            hay@.len() <= usize::MAX,
            start == hay@.len() - needle@.len(),
            forall|j: int| 0 <= j < i ==> hay@[start + j] == needle@[j],
        decreases needle@.len() - i,
    {
        if hay[start + i] != needle[i] {
            assert(hay@.skip(start as int)[i as int] != needle@[i as int]);
            return false;
        }
        i = i + 1;
    }
    proof {
        assert(hay@.skip(start as int) =~= needle@);
    }
    true
}

/// Maps a character reserved by the persistence format (`=`, `;`, `,`)
/// to `_`, and leaves every other character as it is.
pub open spec fn normalize_char(c: char) -> char {
    if c == '=' || c == ';' || c == ',' {
        '_'
    } else {
        c
    }
}

/// Pointwise normalization of a character sequence.
pub open spec fn normalize_seq(s: Seq<char>) -> Seq<char> {
    s.map_values(|c: char| normalize_char(c))
}

/// Normalizing twice is the same as normalizing once.
pub proof fn lemma_normalize_idempotent(s: Seq<char>)
    ensures
        normalize_seq(normalize_seq(s)) == normalize_seq(s),
{
    assert(normalize_seq(normalize_seq(s)) =~= normalize_seq(s));
}

/// Pointwise normalization of a character vector.
pub fn normalize_chars(v: &Vec<char>) -> (out: Vec<char>)
    ensures
        out@ == normalize_seq(v@),
{
    let mut out: Vec<char> = Vec::new();
    let mut i: usize = 0;
    while i < v.len()
        invariant
            i <= v@.len(),
            out@ == normalize_seq(v@.subrange(0, i as int)),
        decreases v@.len() - i,
    {
        let c = v[i];
        if c == '=' || c == ';' || c == ',' {
            out.push('_');
        } else {
            out.push(c);
        }
        i = i + 1;
        proof {
            assert(out@ =~= normalize_seq(v@.subrange(0, i as int)));
        }
    }
    proof {
        assert(out@ =~= normalize_seq(v@));
    }
    out
}

/// Replaces every occurrence of `=`, `;` and `,` in `s` with `_`.
pub fn normalize(s: &str) -> (r: String)
    ensures
        r@ == normalize_seq(s@),
{
    let chars = str_to_chars(s);
    let out = normalize_chars(&chars);
    chars_to_string(&out)
}

} // verus!
