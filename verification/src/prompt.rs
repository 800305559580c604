//! The prompt: who is at the terminal, and where.
//!
//! The working directory is shown as `~` when it is the home directory, as
//! `~/` and the path below it when it lies under the home directory, and
//! in full otherwise. The prompt fails closed: without a working directory
//! that can be read, without a user name or without a home directory there
//! is no prompt, and no placeholder stands in for any of them.

use crate::diagnostic::{prompt_failed, Diagnostic};
use crate::paint::{paint, painted, Paint};
use std::path::Path;
use vstd::prelude::*;
use vstd::string::*;

verus! {

/// What `std::path::Path::strip_prefix` makes of `path` and `base`, both
/// read as paths of the platform: the part of `path` below `base` where
/// `base` is a prefix of `path` by whole components, nothing where it is not.
pub uninterp spec fn stripped_prefix(path: Seq<char>, base: Seq<char>) -> Option<Seq<char>>;

/// The working directory as the prompt shows it, given what is left of it
/// below the home directory.
pub open spec fn shown_dir(cwd: Seq<char>, below_home: Option<Seq<char>>) -> Seq<char> {
    match below_home {
        None => cwd,
        Some(rest) => if rest.len() == 0 {
            "~"@
        } else {
            "~/"@ + rest
        },
    }
}

/// The prompt around a user name and a directory, each as it is to be shown.
pub open spec fn prompt_text(user: Seq<char>, dir: Seq<char>) -> Seq<char> {
    "rshell @ "@ + user + ":"@ + dir + "> "@
}

/// Whether `out` is a form in which the prompt for `user` and `dir` may
/// reach the terminal: the user name in yellow, the directory in blue, and
/// the line around them in bold green.
pub open spec fn prompt_rendering(user: Seq<char>, dir: Seq<char>, out: Seq<char>) -> bool {
    exists|u: Seq<char>, d: Seq<char>|
        #![trigger prompt_text(u, d)]
        painted(user, Paint::Yellow, u) && painted(dir, Paint::Blue, d) && painted(
            prompt_text(u, d),
            Paint::BoldGreen,
            out,
        )
}

/// The text of an optional string slice.
pub open spec fn text_of(s: Option<&str>) -> Option<Seq<char>> {
    match s {
        Some(s) => Some(s@),
        None => None,
    }
}

/// Why there is no prompt.
#[derive(Debug, PartialEq, Eq)]
pub enum PromptError {
    /// The working directory cannot be read, for `reason`.
    WorkingDir { reason: String },
    /// The environment names no user.
    UserNotSet,
    /// The environment names no home directory.
    HomeNotSet,
}

/// A prompt error with its text as a sequence of characters.
pub enum PromptErrorView {
    WorkingDir { reason: Seq<char> },
    UserNotSet,
    HomeNotSet,
}

impl View for PromptError {
    type V = PromptErrorView;

    open spec fn view(&self) -> PromptErrorView {
        match self {
            PromptError::WorkingDir { reason } => PromptErrorView::WorkingDir { reason: reason@ },
            PromptError::UserNotSet => PromptErrorView::UserNotSet,
            PromptError::HomeNotSet => PromptErrorView::HomeNotSet,
        }
    }
}

impl PromptErrorView {
    /// The error in words.
    pub open spec fn in_words(self) -> Seq<char> {
        match self {
            PromptErrorView::WorkingDir { reason } => reason,
            PromptErrorView::UserNotSet => "USER environment variable not set"@,
            PromptErrorView::HomeNotSet => "HOME environment variable not set"@,
        }
    }
}

/// The error, if any, that stands in the way of a prompt. A working
/// directory that cannot be read is reported before a missing user name,
/// and that before a missing home directory.
pub open spec fn prompt_error(
    cwd: Result<Seq<char>, Seq<char>>,
    user: Option<Seq<char>>,
    home: Option<Seq<char>>,
) -> Option<PromptErrorView> {
    match cwd {
        Err(reason) => Some(PromptErrorView::WorkingDir { reason }),
        Ok(_) => if user is None {
            Some(PromptErrorView::UserNotSet)
        } else if home is None {
            Some(PromptErrorView::HomeNotSet)
        } else {
            None
        },
    }
}

impl PromptError {
    /// The error in words.
    pub fn message(&self) -> (text: String)
        ensures
            text@ == self@.in_words(),
    {
        match self {
            PromptError::WorkingDir { reason } => reason.clone(),
            PromptError::UserNotSet => String::from_str("USER environment variable not set"),
            PromptError::HomeNotSet => String::from_str("HOME environment variable not set"),
        }
    }

    /// The diagnostic that reports the error.
    pub fn diagnostic(&self) -> (d: Diagnostic)
        ensures
            d@ == prompt_failed(self@.in_words()),
    {
        let text = self.message();
        Diagnostic::prompt_failed(text.as_str())
    }
}

/// `std::path::Path::strip_prefix` on `path`, with `base` as the prefix;
/// what is left of the path comes back as text. The result is a function
/// of the two paths alone.
#[verifier::external_body]
fn strip_prefix(path: &str, base: &str) -> (rest: Option<String>)
    ensures
        rest is Some <==> stripped_prefix(path@, base@) is Some,
        rest matches Some(r) ==> stripped_prefix(path@, base@) == Some(r@),
{
    match Path::new(path).strip_prefix(base) {
        Ok(rest) => Some(rest.to_string_lossy().into_owned()),
        Err(_) => None,
    }
}

/// The working directory as the prompt shows it, given what is left of it
/// below the home directory: `None` where it does not lie there.
pub fn display_dir(cwd: &str, below_home: Option<&str>) -> (shown: String)
    ensures
        shown@ == shown_dir(cwd@, text_of(below_home)),
{
    match below_home {
        None => String::from_str(cwd),
        Some(rest) => {
            if rest.unicode_len() == 0 {
                String::from_str("~")
            } else {
                let mut shown = String::from_str("~/");
                shown.append(rest);
                shown
            }
        },
    }
}

/// The working directory as the prompt shows it.
pub fn abbreviate(cwd: &str, home: &str) -> (shown: String)
    ensures
        shown@ == shown_dir(cwd@, stripped_prefix(cwd@, home@)),
{
    match strip_prefix(cwd, home) {
        Some(rest) => display_dir(cwd, Some(rest.as_str())),
        None => display_dir(cwd, None),
    }
}

/// The prompt around a user name and a directory, each as it is to be shown.
pub fn layout_prompt(user: &str, dir: &str) -> (line: String)
    ensures
        line@ == prompt_text(user@, dir@),
{
    let mut line = String::from_str("rshell @ ");
    line.append(user);
    line.append(":");
    line.append(dir);
    line.append("> ");
    line
}

/// The prompt for `user` in `dir`, as the terminal is to receive it.
pub fn render_prompt(user: &str, dir: &str) -> (out: String)
    ensures
        prompt_rendering(user@, dir@, out@),
{
    let user_shown = paint(user, Paint::Yellow);
    let dir_shown = paint(dir, Paint::Blue);
    let line = layout_prompt(user_shown.as_str(), dir_shown.as_str());
    let out = paint(line.as_str(), Paint::BoldGreen);
    out
}

} // verus!
