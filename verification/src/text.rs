//! Small operations on text that the rest of the crate is built from.

use crate::whitespace::{all_space, is_space, is_whitespace};
use vstd::prelude::*;
use vstd::string::*;
use vstd::utf8::encode_utf8_decode_utf8;

verus! {

broadcast use vstd::string::group_string_axioms;

/// `s` without the whitespace at its front.
pub open spec fn trim_start(s: Seq<char>) -> Seq<char>
    decreases s.len(),
{
    if s.len() > 0 && is_space(s[0]) {
        trim_start(s.drop_first())
    } else {
        s
    }
}

/// `s` without the whitespace at its end.
pub open spec fn trim_end(s: Seq<char>) -> Seq<char>
    decreases s.len(),
{
    if s.len() > 0 && is_space(s.last()) {
        trim_end(s.drop_last())
    } else {
        s
    }
}

/// `s` without the whitespace at either end.
pub open spec fn trimmed(s: Seq<char>) -> Seq<char> {
    trim_end(trim_start(s))
}

/// Whitespace at the front is dropped, and with the first character that is
/// none, or at the end of the text, nothing more is.
pub proof fn lemma_trim_start_skips(s: Seq<char>, n: int)
    requires
        0 <= n <= s.len(),
        all_space(s.take(n)),
        n == s.len() || !is_space(s[n]),
    ensures
        trim_start(s) == s.skip(n),
    decreases n,
{
    if n > 0 {
        let t = s.drop_first();
        assert(s[0] == s.take(n)[0]);
        assert forall|i: int| 0 <= i < n - 1 implies is_space(#[trigger] t.take(n - 1)[i]) by {
            assert(t.take(n - 1)[i] == s.take(n)[i + 1]);
        }
        lemma_trim_start_skips(t, n - 1);
    }
}

/// Whitespace at the end is dropped, and before the last character that is
/// none, or at the front of the text, nothing more is.
pub proof fn lemma_trim_end_takes(s: Seq<char>, n: int)
    requires
        0 <= n <= s.len(),
        all_space(s.skip(n)),
        n == 0 || !is_space(s[n - 1]),
    ensures
        trim_end(s) == s.take(n),
    decreases s.len() - n,
{
    if n < s.len() {
        let t = s.drop_last();
        assert(s.last() == s.skip(n)[s.len() - 1 - n]);
        assert forall|i: int| 0 <= i < t.len() - n implies is_space(#[trigger] t.skip(n)[i]) by {
            assert(t.skip(n)[i] == s.skip(n)[i]);
        }
        lemma_trim_end_takes(t, n);
    }
}

/// The characters of `s`, one by one.
pub fn chars_of(s: &str) -> (chars: Vec<char>)
    ensures
        chars@ == s@,
{
    let mut chars: Vec<char> = Vec::new();
    for c in it: s.chars()
        invariant
            it.seq() == s@,
            chars@ == it.seq().take(it.index() as int),
    {
        chars.push(c);
    }
    chars
}

/// Whether two string slices hold the same text.
pub fn same_text(a: &str, b: &str) -> (same: bool)
    ensures
        same == (a@ == b@),
{
    let x = a.as_bytes();
    let y = b.as_bytes();
    proof {
        encode_utf8_decode_utf8(a@);
        encode_utf8_decode_utf8(b@);
    }
    if x.len() != y.len() {
        return false;
    }
    let mut i: usize = 0;
    while i < x.len()
        invariant
            x@ == a.spec_bytes(),
            y@ == b.spec_bytes(),
            x.len() == y.len(),
            i <= x.len(),
            forall|k: int| 0 <= k < i ==> x@[k] == y@[k],
        decreases x.len() - i,
    {
        if x[i] != y[i] {
            return false;
        }
        i += 1;
    }
    assert(x@ =~= y@);
    true
}

/// The slice of `s` between its first and its last character that is not
/// whitespace.
pub fn trim<'a>(s: &'a str) -> (t: &'a str)
    ensures
        t@ == trimmed(s@),
{
    let chars = chars_of(s);
    let n = chars.len();
    let mut start: usize = 0;
    while start < n && is_whitespace(chars[start])
        invariant
            chars@ == s@,
            n == chars.len(),
            start <= n,
            forall|k: int| 0 <= k < start ==> is_space(#[trigger] s@[k]),
        decreases n - start,
    {
        start += 1;
    }
    let mut end: usize = n;
    while end > start && is_whitespace(chars[end - 1])
        invariant
            chars@ == s@,
            n == chars.len(),
            start <= end <= n,
            forall|k: int| end <= k < n ==> is_space(#[trigger] s@[k]),
        decreases end,
    {
        end -= 1;
    }
    proof {
        lemma_trim_start_skips(s@, start as int);
        lemma_trim_end_takes(s@.skip(start as int), end - start);
    }
    s.substring_char(start, end)
}

} // verus!
