//! The steps of the loop: show the prompt, take in a line, split it, and
//! decide what it asks for.

use crate::command::{command_action, execute_command, report_view, Action, ActionView};
use crate::diagnostic::{prompt_failed, read_failed, Diagnostic};
use crate::prompt::{
    abbreviate, prompt_error, prompt_rendering, render_prompt, shown_dir, stripped_prefix, text_of,
    PromptError,
};
use crate::session::place_of;
use crate::text::{trim, trimmed};
use crate::tokens::{is_word, lemma_tokens_are_words, split_whitespace, token_views, tokens};
use vstd::prelude::*;

verus! {

/// The command name and the arguments of a line, or `None` for a line
/// without a token.
pub open spec fn parse(line: Seq<char>) -> Option<(Seq<char>, Seq<Seq<char>>)> {
    if tokens(line).len() == 0 {
        None
    } else {
        Some((tokens(line)[0], tokens(line).drop_first()))
    }
}

/// What a line asks for: nothing where it has no token, else what its
/// command asks for.
pub open spec fn line_action(line: Seq<char>, home: Option<Seq<char>>) -> ActionView {
    match parse(line) {
        None => ActionView::Continue,
        Some((command, args)) => command_action(command, args, home),
    }
}

/// The line that a read of `bytes_read` bytes into `raw` has brought: none
/// where the stream had no more data, else `raw` without the whitespace at
/// its ends.
pub open spec fn line_read(bytes_read: nat, raw: Seq<char>) -> Option<Seq<char>> {
    if bytes_read == 0 {
        None
    } else {
        Some(trimmed(raw))
    }
}

/// How a read ended, as text: with a number of bytes, or with the reason
/// for its failure.
pub open spec fn read_of(read: Result<usize, String>) -> Result<nat, Seq<char>> {
    match read {
        Ok(bytes_read) => Ok(bytes_read as nat),
        Err(reason) => Err(reason@),
    }
}

/// What a read asks for: to report it where it failed, to leave the loop
/// where the stream is exhausted, else what the line asks for.
pub open spec fn read_action(
    read: Result<nat, Seq<char>>,
    raw: Seq<char>,
    home: Option<Seq<char>>,
) -> ActionView {
    match read {
        Err(reason) => ActionView::Report(read_failed(reason)),
        Ok(bytes_read) => match line_read(bytes_read, raw) {
            None => ActionView::Terminate,
            Some(line) => line_action(line, home),
        },
    }
}

/// The shell's steps. It holds no state of its own.
pub struct Shell;

impl Shell {
    /// Takes in what a read of one line has brought: `bytes_read` bytes,
    /// now in `raw`. Gives the line without the whitespace at its ends, or
    /// `None` where the stream is exhausted.
    pub fn read_input(bytes_read: usize, raw: &str) -> (line: Option<&str>)
        ensures
            text_of(line) == line_read(bytes_read as nat, raw@),
    {
        if bytes_read == 0 {
            None
        } else {
            Some(trim(raw))
        }
    }

    /// Splits a line into the command name and its arguments, in the order
    /// in which they stand on the line. A line without a token has no
    /// command. The command name and every argument is a word: not empty,
    /// and free of whitespace.
    pub fn parse_input(input: &str) -> (parsed: Option<(&str, Vec<&str>)>)
        ensures
            match parsed {
                None => parse(input@) is None,
                Some((command, args)) => {
                    &&& parse(input@) == Some((command@, token_views(args@)))
                    &&& is_word(command@)
                    &&& forall|i: int| 0 <= i < args.len() ==> is_word(#[trigger] args[i]@)
                },
            },
    {
        let mut words = split_whitespace(input);
        if words.len() == 0 {
            None
        } else {
            proof {
                lemma_tokens_are_words(input@);
            }
            let command = words.remove(0);
            assert forall|i: int| 0 <= i < words.len() implies is_word(#[trigger] words[i]@) by {
                assert(words[i]@ == tokens(input@)[i + 1]);
            }
            Some((command, words))
        }
    }

    /// The prompt to show before a read, for `user`, with `home` as the
    /// home directory and `cwd` as the working directory: its path, or the
    /// reason why it cannot be read. There is a prompt exactly when all
    /// three are there.
    pub fn print_prompt(user: Option<&str>, home: Option<&str>, cwd: Result<&str, &str>) -> (shown:
        Result<String, PromptError>)
        ensures
            match shown {
                Err(e) => prompt_error(place_of(cwd), text_of(user), text_of(home)) == Some(e@),
                Ok(text) => {
                    &&& cwd matches Ok(path)
                    &&& user matches Some(name)
                    &&& home matches Some(base)
                    &&& prompt_rendering(
                        name@,
                        shown_dir(path@, stripped_prefix(path@, base@)),
                        text@,
                    )
                },
            },
    {
        match cwd {
            Err(reason) => Err(PromptError::WorkingDir { reason: String::from_str(reason) }),
            Ok(path) => match user {
                None => Err(PromptError::UserNotSet),
                Some(name) => match home {
                    None => Err(PromptError::HomeNotSet),
                    Some(base) => {
                        let dir = abbreviate(path, base);
                        Ok(render_prompt(name, dir.as_str()))
                    },
                },
            },
        }
    }

    /// Takes in how writing the prompt to the terminal ended. A prompt
    /// that could not be written is reported as one that could not be
    /// shown, and the turn ends without a read.
    pub fn finish_prompt(written: Result<(), String>) -> (report: Option<Diagnostic>)
        ensures
            report_view(report) == match written {
                Ok(_) => None,
                Err(reason) => Some(prompt_failed(reason@)),
            },
    {
        match written {
            Ok(_) => None,
            Err(reason) => Some(Diagnostic::prompt_failed(reason.as_str())),
        }
    }

    /// Decides what a read asks for. `read` is how the read ended: with a
    /// number of bytes, now in `raw`, or with the reason for its failure.
    /// A failed read is reported, and the loop goes on; otherwise
    /// `read_input`, `parse_input` and `execute_command` decide in a row.
    pub fn dispatch(read: Result<usize, String>, raw: &str, home: Option<&str>) -> (action: Action)
        ensures
            action@ == read_action(read_of(read), raw@, text_of(home)),
    {
        match read {
            Err(reason) => Action::Report(Diagnostic::read_failed(reason.as_str())),
            Ok(bytes_read) => match Shell::read_input(bytes_read, raw) {
                None => Action::Terminate,
                Some(line) => match Shell::parse_input(line) {
                    None => Action::Continue,
                    Some((command, args)) => execute_command(command, args.as_slice(), home),
                },
            },
        }
    }
}

} // verus!
