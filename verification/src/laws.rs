//! What holds of the shell whatever the line, the arguments and the
//! environment are.

use crate::command::{command_action, ActionView};
use crate::diagnostic::{home_not_set, read_failed};
use crate::shell::{line_action, line_read, parse, read_action};
use crate::text::{trim_end, trim_start, trimmed};
use crate::tokens::{
    is_word, lemma_no_tokens_iff_blank, lemma_tokens_before_gap, lemma_tokens_of_spaced,
    separates, spaced, tokens,
};
use crate::whitespace::{all_space, is_space};
use vstd::prelude::*;

verus! {

/// Trimming a line does not change its tokens.
pub proof fn lemma_trim_keeps_tokens(s: Seq<char>)
    ensures
        tokens(trimmed(s)) == tokens(s),
{
    lemma_trim_start_keeps_tokens(s);
    lemma_trim_end_keeps_tokens(trim_start(s));
}

proof fn lemma_trim_start_keeps_tokens(s: Seq<char>)
    ensures
        tokens(trim_start(s)) == tokens(s),
    decreases s.len(),
{
    if s.len() > 0 && is_space(s[0]) {
        lemma_trim_start_keeps_tokens(s.drop_first());
    }
}

proof fn lemma_trim_end_keeps_tokens(s: Seq<char>)
    ensures
        tokens(trim_end(s)) == tokens(s),
    decreases s.len(),
{
    if s.len() > 0 && is_space(s.last()) {
        let init = s.drop_last();
        lemma_trim_end_keeps_tokens(init);
        assert(init + seq![s.last()] == s);
        lemma_tokens_before_gap(init, seq![s.last()]);
    }
}

/// A line of nothing but whitespace, the empty line among them, asks for
/// nothing: the loop goes on, nothing is changed and nothing is reported.
pub proof fn law_blank_line_is_noop(line: Seq<char>, home: Option<Seq<char>>)
    requires
        all_space(line),
    ensures
        line_action(line, home) == ActionView::Continue,
{
    lemma_no_tokens_iff_blank(line);
}

/// The same of a line as it was read, before it is trimmed.
pub proof fn law_blank_read_is_noop(bytes_read: nat, raw: Seq<char>, home: Option<Seq<char>>)
    requires
        bytes_read > 0,
        all_space(raw),
    ensures
        read_action(Ok(bytes_read), raw, home) == ActionView::Continue,
{
    lemma_trim_keeps_tokens(raw);
    lemma_no_tokens_iff_blank(raw);
}

/// What a read asks for does not depend on the whitespace at the ends of
/// the line.
pub proof fn law_read_is_line(bytes_read: nat, raw: Seq<char>, home: Option<Seq<char>>)
    requires
        bytes_read > 0,
    ensures
        read_action(Ok(bytes_read), raw, home) == line_action(raw, home),
{
    lemma_trim_keeps_tokens(raw);
}

/// `exit` leaves the loop, whatever its arguments and whatever the
/// environment. The decision reads no state, so nothing that came before
/// the line can change it.
pub proof fn law_exit_terminates(args: Seq<Seq<char>>, home: Option<Seq<char>>)
    ensures
        command_action("exit"@, args, home) == ActionView::Terminate,
{
    reveal_strlit("exit");
}

/// A line whose first token is `exit` leaves the loop.
pub proof fn law_exit_line_terminates(line: Seq<char>, home: Option<Seq<char>>)
    requires
        tokens(line).len() > 0,
        tokens(line)[0] == "exit"@,
    ensures
        line_action(line, home) == ActionView::Terminate,
{
    law_exit_terminates(tokens(line).drop_first(), home);
}

/// `cd` with a directory other than `~` asks the system for that very
/// path, `..` included, whatever follows it on the line.
pub proof fn law_cd_asks_for_the_path(
    dir: Seq<char>,
    more: Seq<Seq<char>>,
    home: Option<Seq<char>>,
)
    requires
        dir != "~"@,
    ensures
        command_action("cd"@, seq![dir] + more, home) == (ActionView::ChangeDir {
            dir,
            target: dir,
        }),
{
    reveal_strlit("cd");
    reveal_strlit("exit");
}

/// `~` alone and `cd ~` ask for the same thing, whatever follows them on
/// the line: the home directory as the new working directory where the
/// environment names one, and else a report that it names none, with no
/// change of directory.
pub proof fn law_tilde_is_cd_tilde(
    args: Seq<Seq<char>>,
    more: Seq<Seq<char>>,
    home: Option<Seq<char>>,
)
    ensures
        command_action("~"@, args, home) == command_action("cd"@, seq!["~"@] + more, home),
        command_action("~"@, args, home) == match home {
            Some(h) => ActionView::ChangeDir { dir: "~"@, target: h },
            None => ActionView::Report(home_not_set()),
        },
{
    reveal_strlit("~");
    reveal_strlit("cd");
    reveal_strlit("..");
    reveal_strlit("exit");
}

/// `..` alone and `cd ..` ask for the same thing: the path `..`, which the
/// system resolves to the parent of the working directory.
pub proof fn law_dots_is_cd_dots(
    args: Seq<Seq<char>>,
    more: Seq<Seq<char>>,
    home: Option<Seq<char>>,
)
    ensures
        command_action(".."@, args, home) == command_action("cd"@, seq![".."@] + more, home),
        command_action(".."@, args, home) == (ActionView::ChangeDir {
            dir: ".."@,
            target: ".."@,
        }),
{
    reveal_strlit("~");
    reveal_strlit("cd");
    reveal_strlit("..");
    reveal_strlit("exit");
    assert(".."@[0] == '.');
}

/// The lines `~` and `cd ~` ask for the same thing.
pub proof fn law_tilde_line_is_cd_tilde_line(home: Option<Seq<char>>)
    ensures
        line_action("~"@, home) == line_action("cd ~"@, home),
{
    reveal_strlit("~");
    reveal_strlit("cd");
    reveal_strlit("cd ~");
    let none = Seq::<char>::empty();
    let one = seq![' '];
    assert(spaced(seq![none, none], seq!["~"@]) =~= "~"@) by {
        reveal_with_fuel(spaced, 2);
    }
    lemma_tokens_of_spaced(seq![none, none], seq!["~"@]);
    assert(spaced(seq![none, one, none], seq!["cd"@, "~"@]) =~= "cd ~"@) by {
        reveal_with_fuel(spaced, 3);
    }
    lemma_tokens_of_spaced(seq![none, one, none], seq!["cd"@, "~"@]);
    law_tilde_is_cd_tilde(Seq::empty(), Seq::empty(), home);
}

/// Tokenizing does not see how long the runs of whitespace are: two lines
/// made of the same words, with whatever whitespace before, between and
/// after them, have the same tokens, which are the words.
pub proof fn law_spacing_is_invisible(
    gaps: Seq<Seq<char>>,
    other_gaps: Seq<Seq<char>>,
    words: Seq<Seq<char>>,
)
    requires
        separates(gaps, words),
        separates(other_gaps, words),
        forall|i: int| 0 <= i < words.len() ==> is_word(#[trigger] words[i]),
    ensures
        tokens(spaced(gaps, words)) == words,
        tokens(spaced(other_gaps, words)) == words,
        parse(spaced(gaps, words)) == parse(spaced(other_gaps, words)),
{
    lemma_tokens_of_spaced(gaps, words);
    lemma_tokens_of_spaced(other_gaps, words);
}

/// An exhausted input stream ends the loop as `exit` does.
pub proof fn law_closed_stream_terminates(raw: Seq<char>, home: Option<Seq<char>>)
    ensures
        line_read(0, raw) is None,
        read_action(Ok(0), raw, home) == ActionView::Terminate,
{
}

/// A read that failed is reported, and does not end the loop, whatever
/// the buffer holds.
pub proof fn law_failed_read_is_reported(
    reason: Seq<char>,
    raw: Seq<char>,
    home: Option<Seq<char>>,
)
    ensures
        read_action(Err(reason), raw, home) == ActionView::Report(read_failed(reason)),
{
}

} // verus!
