//! Small facts about texts that the request logic needs.

use vstd::prelude::*;

verus! {

/// Two texts hold the same characters.
pub fn same_text(a: &str, b: &str) -> (r: bool)
    ensures
        r == (a@ == b@),
{
    let n: usize = a.unicode_len();
    if n != b.unicode_len() {
        return false;
    }
    let mut i: usize = 0;
    while i < n
        invariant
            n == a@.len() == b@.len(),
            i <= n,
            a@.subrange(0, i as int) == b@.subrange(0, i as int),
        decreases n - i,
    {
        if a.get_char(i) != b.get_char(i) {
            assert(a@[i as int] != b@[i as int]);
            return false;
        }
        assert(a@.subrange(0, i + 1) == a@.subrange(0, i as int).push(a@[i as int]));
        assert(b@.subrange(0, i + 1) == b@.subrange(0, i as int).push(b@[i as int]));
        i = i + 1;
    }
    assert(a@ == a@.subrange(0, n as int));
    assert(b@ == b@.subrange(0, n as int));
    true
}

/// A character that an HTTP header value may hold: a horizontal tab, or any
/// character from the space on but DEL. Every byte of the UTF-8 form of a
/// character past DEL is 128 or more, so such characters pass too.
pub open spec fn is_header_char(c: char) -> bool {
    c == '\t' || (c as u32 >= 32 && c as u32 != 127)
}

/// A text that an HTTP header value may be.
pub open spec fn is_header_value(s: Seq<char>) -> bool {
    forall|i: int| 0 <= i < s.len() ==> is_header_char(#[trigger] s[i])
}

/// Whether `s` may stand as an HTTP header value.
pub fn header_value_ok(s: &str) -> (r: bool)
    ensures
        r == is_header_value(s@),
{
    let mut ok: bool = true;
    for c in iter: s.chars()
        invariant
            iter.seq() == s@,
            ok == (forall|j: int| 0 <= j < iter.index() ==> is_header_char(#[trigger] s@[j])),
    {
        let code: u32 = c as u32;
        ok = ok && (c == '\t' || (code >= 32 && code != 127));
    }
    ok
}

} // verus!
