//! Splitting a line into its whitespace-separated tokens.
//!
//! There is no quoting and no escaping: a token is a maximal run of
//! characters that are not whitespace.

use crate::text::chars_of;
use crate::whitespace::{all_space, is_space, is_whitespace, no_space};
use vstd::prelude::*;
use vstd::string::*;

verus! {

broadcast use vstd::string::group_string_axioms;

/// Length of the longest prefix of `s` that holds no whitespace.
pub open spec fn word_len(s: Seq<char>) -> nat
    decreases s.len(),
{
    if s.len() == 0 || is_space(s[0]) {
        0
    } else {
        1 + word_len(s.drop_first())
    }
}

/// The tokens of `s`, in the order in which they occur: leading whitespace
/// is skipped, the longest whitespace-free prefix is a token, and the rest
/// of the line is split in the same way.
pub open spec fn tokens(s: Seq<char>) -> Seq<Seq<char>>
    decreases s.len(),
    via tokens_terminates
{
    if s.len() == 0 {
        Seq::empty()
    } else if is_space(s[0]) {
        tokens(s.drop_first())
    } else {
        seq![s.take(word_len(s) as int)] + tokens(s.skip(word_len(s) as int))
    }
}

#[via_fn]
proof fn tokens_terminates(s: Seq<char>) {
    lemma_word_len(s);
}

/// A token as `tokens` yields them: not empty, and free of whitespace.
pub open spec fn is_word(w: Seq<char>) -> bool {
    w.len() > 0 && no_space(w)
}

/// The line made of `words` with `gaps[i]` before `words[i]` and the last
/// gap after the last word. Meant for `gaps.len() == words.len() + 1`.
pub open spec fn spaced(gaps: Seq<Seq<char>>, words: Seq<Seq<char>>) -> Seq<char>
    decreases words.len(),
{
    if words.len() == 0 {
        gaps[0]
    } else {
        gaps[0] + words[0] + spaced(gaps.drop_first(), words.drop_first())
    }
}

/// Whether `gaps` can separate `words`: one gap more than words, every gap
/// whitespace only, and no gap between two words empty.
pub open spec fn separates(gaps: Seq<Seq<char>>, words: Seq<Seq<char>>) -> bool {
    &&& gaps.len() == words.len() + 1
    &&& forall|i: int| 0 <= i < gaps.len() ==> all_space(#[trigger] gaps[i])
    &&& forall|i: int| 0 < i < words.len() ==> (#[trigger] gaps[i]).len() > 0
}

/// The character views of a list of string slices.
pub open spec fn token_views(v: Seq<&str>) -> Seq<Seq<char>> {
    v.map_values(|t: &str| t@)
}

/// `word_len` stops at the first whitespace character, or at the end.
pub proof fn lemma_word_len(s: Seq<char>)
    ensures
        word_len(s) <= s.len(),
        no_space(s.take(word_len(s) as int)),
        word_len(s) < s.len() ==> is_space(s[word_len(s) as int]),
        s.len() > 0 && !is_space(s[0]) ==> word_len(s) >= 1,
    decreases s.len(),
{
    if s.len() > 0 && !is_space(s[0]) {
        let t = s.drop_first();
        lemma_word_len(t);
        let n = word_len(s) as int;
        assert forall|i: int| 0 <= i < n implies !is_space(#[trigger] s.take(n)[i]) by {
            if i > 0 {
                assert(s.take(n)[i] == t.take(n - 1)[i - 1]);
            }
        }
    }
}

/// A whitespace-free prefix that ends the line or stands before whitespace
/// is the longest one.
pub proof fn lemma_word_len_is(s: Seq<char>, n: int)
    requires
        0 <= n <= s.len(),
        no_space(s.take(n)),
        n == s.len() || is_space(s[n]),
    ensures
        word_len(s) == n,
    decreases n,
{
    if n > 0 {
        let t = s.drop_first();
        assert(s[0] == s.take(n)[0]);
        assert forall|i: int| 0 <= i < n - 1 implies !is_space(#[trigger] t.take(n - 1)[i]) by {
            assert(t.take(n - 1)[i] == s.take(n)[i + 1]);
        }
        lemma_word_len_is(t, n - 1);
    }
}

/// Every token is a word.
pub proof fn lemma_tokens_are_words(s: Seq<char>)
    ensures
        forall|i: int| 0 <= i < tokens(s).len() ==> is_word(#[trigger] tokens(s)[i]),
    decreases s.len(),
{
    if s.len() == 0 {
    } else if is_space(s[0]) {
        lemma_tokens_are_words(s.drop_first());
        assert(tokens(s) == tokens(s.drop_first()));
    } else {
        lemma_word_len(s);
        let n = word_len(s) as int;
        lemma_tokens_are_words(s.skip(n));
        assert(tokens(s) == seq![s.take(n)] + tokens(s.skip(n)));
    }
}

/// A line has no token exactly when it holds nothing but whitespace.
pub proof fn lemma_no_tokens_iff_blank(s: Seq<char>)
    ensures
        tokens(s).len() == 0 <==> all_space(s),
    decreases s.len(),
{
    if s.len() == 0 {
    } else if is_space(s[0]) {
        let t = s.drop_first();
        lemma_no_tokens_iff_blank(t);
        if all_space(t) {
            assert forall|i: int| 0 <= i < s.len() implies is_space(#[trigger] s[i]) by {
                if i > 0 {
                    assert(s[i] == t[i - 1]);
                }
            }
        }
    } else {
        lemma_word_len(s);
    }
}

/// Whitespace in front of a line does not change its tokens.
pub proof fn lemma_tokens_after_gap(gap: Seq<char>, s: Seq<char>)
    requires
        all_space(gap),
    ensures
        tokens(gap + s) == tokens(s),
    decreases gap.len(),
{
    if gap.len() > 0 {
        let rest = gap.drop_first();
        assert((gap + s).drop_first() == rest + s);
        lemma_tokens_after_gap(rest, s);
    }
}

/// Whitespace at the end of a line does not change its tokens.
pub proof fn lemma_tokens_before_gap(s: Seq<char>, gap: Seq<char>)
    requires
        all_space(gap),
    ensures
        tokens(s + gap) == tokens(s),
    decreases s.len(),
{
    let line = s + gap;
    if s.len() == 0 {
        lemma_no_tokens_iff_blank(gap);
    } else if is_space(s[0]) {
        assert(line.drop_first() == s.drop_first() + gap);
        lemma_tokens_before_gap(s.drop_first(), gap);
    } else {
        lemma_word_len(s);
        let n = word_len(s) as int;
        assert(line.take(n) == s.take(n));
        assert(line.skip(n) == s.skip(n) + gap);
        lemma_word_len_is(line, n);
        lemma_tokens_before_gap(s.skip(n), gap);
    }
}

/// A word in front of a line that is empty or begins with whitespace is the
/// line's first token.
pub proof fn lemma_tokens_after_word(word: Seq<char>, s: Seq<char>)
    requires
        is_word(word),
        s.len() == 0 || is_space(s[0]),
    ensures
        tokens(word + s) == seq![word] + tokens(s),
{
    let line = word + s;
    let n = word.len() as int;
    assert(line.take(n) == word);
    assert(line.skip(n) == s);
    lemma_word_len_is(line, n);
}

/// Tokenizing undoes spacing: however long the whitespace runs around and
/// between the words are, the tokens of the spaced line are the words.
pub proof fn lemma_tokens_of_spaced(gaps: Seq<Seq<char>>, words: Seq<Seq<char>>)
    requires
        separates(gaps, words),
        forall|i: int| 0 <= i < words.len() ==> is_word(#[trigger] words[i]),
    ensures
        tokens(spaced(gaps, words)) == words,
    decreases words.len(),
{
    if words.len() == 0 {
        lemma_no_tokens_iff_blank(gaps[0]);
    } else {
        let more_gaps = gaps.drop_first();
        let more_words = words.drop_first();
        let rest = spaced(more_gaps, more_words);
        lemma_tokens_of_spaced(more_gaps, more_words);
        assert(rest.len() == 0 || is_space(rest[0])) by {
            if more_words.len() > 0 {
                assert(rest == more_gaps[0] + more_words[0] + spaced(
                    more_gaps.drop_first(),
                    more_words.drop_first(),
                ));
            }
        }
        lemma_tokens_after_word(words[0], rest);
        assert(gaps[0] + words[0] + rest == gaps[0] + (words[0] + rest));
        lemma_tokens_after_gap(gaps[0], words[0] + rest);
    }
}

/// Splits `input` on runs of whitespace. Each token is a slice of `input`.
pub fn split_whitespace<'a>(input: &'a str) -> (words: Vec<&'a str>)
    ensures
        token_views(words@) == tokens(input@),
{
    let chars = chars_of(input);
    let n = chars.len();
    let mut words: Vec<&'a str> = Vec::new();
    let mut i: usize = 0;
    assert(input@.skip(0) == input@);
    while i < n
        invariant
            chars@ == input@,
            n == chars.len(),
            i <= n,
            tokens(input@) == token_views(words@) + tokens(input@.skip(i as int)),
        decreases n - i,
    {
        let ghost rest = input@.skip(i as int);
        if is_whitespace(chars[i]) {
            assert(rest.drop_first() == input@.skip(i + 1));
            i += 1;
        } else {
            let start = i;
            let mut end = i + 1;
            while end < n && !is_whitespace(chars[end])
                invariant
                    chars@ == input@,
                    n == chars.len(),
                    start < end <= n,
                    forall|k: int| start <= k < end ==> !is_space(#[trigger] input@[k]),
                decreases n - end,
            {
                end += 1;
            }
            let word = input.substring_char(start, end);
            proof {
                let len = end - start;
                assert(rest.take(len) == input@.subrange(start as int, end as int));
                assert(rest.skip(len) == input@.skip(end as int));
                lemma_word_len_is(rest, len);
                assert(token_views(words@).push(word@) + tokens(rest.skip(len)) == token_views(
                    words@,
                ) + (seq![word@] + tokens(rest.skip(len))));
            }
            words.push(word);
            i = end;
        }
    }
    words
}

} // verus!
