//! Questions about text: where one text begins, ends or holds another.

use vstd::prelude::*;
use vstd::std_specs::iter::IteratorSpec;
use vstd::string::StrSliceExecFns;
use vstd::utf8::decode_utf8;
use vstd::utf8::valid_utf8;

verus! {

/// The characters of `s`, one vector element per character.
pub fn to_chars(s: &str) -> (chars: Vec<char>)
    ensures
        chars@ == s@,
{
    let mut chars: Vec<char> = Vec::new();
    for c in it: s.chars()
        invariant
            it.seq() == s@,
            chars@ == it.seq().take(it.index() as int),
    {
        chars.push(c);
    }
    chars
}

/// Whether the characters of `chars` from `from` up to `to` spell `text`.
pub fn range_is(chars: &Vec<char>, from: usize, to: usize, text: &str) -> (same: bool)
    requires
        from <= to <= chars@.len(),
    ensures
        same == (chars@.subrange(from as int, to as int) == text@),
{
    let n: usize = text.unicode_len();
    if to - from != n {
        return false;
    }
    let mut i: usize = 0;
    while i < n
        invariant
            n == text@.len(),
            to - from == n,
            from <= to <= chars@.len(),
            i <= n,
            chars@.subrange(from as int, from + i) == text@.take(i as int),
        decreases n - i,
    {
        if chars[from + i] != text.get_char(i) {
            proof {
                let piece = chars@.subrange(from as int, to as int);
                assert(piece[i as int] != text@[i as int]);
            }
            return false;
        }
        proof {
            assert(chars@.subrange(from as int, from + i + 1) =~= chars@.subrange(
                from as int,
                from + i,
            ).push(chars@[from + i]));
            assert(text@.take(i + 1) =~= text@.take(i as int).push(text@[i as int]));
        }
        i += 1;
    }
    proof {
        assert(text@.take(n as int) =~= text@);
    }
    true
}

/// Whether `s` ends with `suffix`.
pub open spec fn ends_with(s: Seq<char>, suffix: Seq<char>) -> bool {
    s.len() >= suffix.len() && s.subrange(s.len() - suffix.len(), s.len() as int) == suffix
}

/// Where the suffix `text` begins in the characters of `chars` from `from` up
/// to `to`, if that range ends with it.
pub fn range_suffix_start(chars: &Vec<char>, from: usize, to: usize, text: &str) -> (cut: Option<
    usize,
>)
    requires
        from <= to <= chars@.len(),
    ensures
        cut is Some <==> ends_with(chars@.subrange(from as int, to as int), text@),
        cut matches Some(at) ==> from <= at <= to && at == to - text@.len(),
{
    let n: usize = text.unicode_len();
    if to - from < n {
        return None;
    }
    let at: usize = to - n;
    proof {
        let piece = chars@.subrange(from as int, to as int);
        assert(piece.subrange(piece.len() - n, piece.len() as int) =~= chars@.subrange(
            at as int,
            to as int,
        ));
    }
    if range_is(chars, at, to, text) {
        Some(at)
    } else {
        None
    }
}

/// Whether `s` begins with `prefix`.
pub open spec fn starts_with(s: Seq<char>, prefix: Seq<char>) -> bool {
    s.len() >= prefix.len() && s.subrange(0, prefix.len() as int) == prefix
}

/// Whether `part` stands somewhere in `s`.
pub open spec fn contains(s: Seq<char>, part: Seq<char>) -> bool {
    exists|at: int| 0 <= at <= s.len() - part.len() && #[trigger] s.subrange(at, at + part.len()) == part
}

/// Reads `bytes` as UTF-8 text with `core::str::from_utf8`.
///
/// Trusted: the text comes back exactly when the bytes are well-formed
/// UTF-8, and it is the text that they encode.
#[verifier::external_body]
pub(crate) fn utf8_text(bytes: &[u8]) -> (text: Option<&str>)
    ensures
        text is Some <==> valid_utf8(bytes@),
        text matches Some(decoded) ==> decoded@ == decode_utf8(bytes@),
{
    core::str::from_utf8(bytes).ok()
}

/// Whether `a` and `b` are the same text.
pub fn same_text(a: &str, b: &str) -> (same: bool)
    ensures
        same == (a@ == b@),
{
    let chars = to_chars(a);
    proof {
        assert(chars@.subrange(0, chars@.len() as int) =~= chars@);
    }
    range_is(&chars, 0, chars.len(), b)
}

/// Whether the characters `chars` end with `suffix`.
pub fn chars_end_with(chars: &Vec<char>, suffix: &str) -> (found: bool)
    ensures
        found == ends_with(chars@, suffix@),
{
    proof {
        assert(chars@.subrange(0, chars@.len() as int) =~= chars@);
    }
    range_suffix_start(chars, 0, chars.len(), suffix).is_some()
}

/// Whether the characters `chars` begin with `prefix`.
pub fn chars_start_with(chars: &Vec<char>, prefix: &str) -> (found: bool)
    ensures
        found == starts_with(chars@, prefix@),
{
    let n: usize = prefix.unicode_len();
    if chars.len() < n {
        return false;
    }
    range_is(chars, 0, n, prefix)
}

/// Whether `part` stands somewhere in the characters `chars`.
pub fn chars_contain(chars: &Vec<char>, part: &str) -> (found: bool)
    ensures
        found == contains(chars@, part@),
{
    let n: usize = part.unicode_len();
    if chars.len() < n {
        return false;
    }
    let last: usize = chars.len() - n;
    let mut at: usize = 0;
    loop
        invariant
            n == part@.len(),
            last + n == chars@.len(),
            chars@.len() <= usize::MAX,
            at <= last,
            forall|k: int| 0 <= k < at ==> #[trigger] chars@.subrange(k, k + n) != part@,
        decreases last - at,
    {
        if range_is(chars, at, at + n, part) {
            return true;
        }
        if at == last {
            return false;
        }
        at += 1;
    }
}

} // verus!
