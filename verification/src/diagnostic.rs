//! What the shell tells the user when something went wrong.
//!
//! Every failure is turned into a diagnostic where it occurs, and none of
//! them ends the loop. No text ends in a line end: whoever writes a
//! diagnostic ends the line.

use crate::paint::{paint, painted, Paint};
use vstd::prelude::*;
use vstd::string::*;

verus! {

/// The classes of failure.
#[derive(Clone, Copy, Debug, PartialEq, Eq, Structural)]
pub enum ErrorKind {
    /// A line could not be read.
    Input,
    /// A value that the environment should provide is absent, or the
    /// prompt could not be shown.
    Environment,
    /// The target of `cd` does not exist, is no directory, or is out of reach.
    Navigation,
    /// An external command could not be started.
    Spawn,
    /// An external command ran and reported failure.
    ChildFailure,
    /// A built-in was called without an argument that it needs.
    Usage,
}

/// How a diagnostic is coloured.
#[derive(Clone, Copy, Debug, PartialEq, Eq, Structural)]
pub enum Tone {
    /// Uncoloured.
    Plain,
    /// Yellow.
    Warning,
    /// Red.
    Error,
}

/// One message for the error channel.
#[derive(Debug, PartialEq, Eq)]
pub struct Diagnostic {
    pub kind: ErrorKind,
    pub tone: Tone,
    pub text: String,
}

/// A diagnostic with its text as a sequence of characters.
pub struct DiagnosticView {
    pub kind: ErrorKind,
    pub tone: Tone,
    pub text: Seq<char>,
}

impl View for Diagnostic {
    type V = DiagnosticView;

    open spec fn view(&self) -> DiagnosticView {
        DiagnosticView { kind: self.kind, tone: self.tone, text: self.text@ }
    }
}

/// `cd` was given no directory.
pub open spec fn missing_dir() -> DiagnosticView {
    DiagnosticView {
        kind: ErrorKind::Usage,
        tone: Tone::Error,
        text: "cd: missing directory argument"@,
    }
}

/// `cd ~` without a home directory in the environment.
pub open spec fn home_not_set() -> DiagnosticView {
    DiagnosticView {
        kind: ErrorKind::Environment,
        tone: Tone::Plain,
        text: "cd: HOME directory not set"@,
    }
}

/// The system refused to change to `dir`, for `reason`.
pub open spec fn cd_failed(dir: Seq<char>, reason: Seq<char>) -> DiagnosticView {
    DiagnosticView {
        kind: ErrorKind::Navigation,
        tone: Tone::Plain,
        text: "cd: "@ + dir + ": "@ + reason,
    }
}

/// An external command could not be started, for `reason`.
pub open spec fn spawn_failed(reason: Seq<char>) -> DiagnosticView {
    DiagnosticView {
        kind: ErrorKind::Spawn,
        tone: Tone::Error,
        text: "Error executing command: "@ + reason,
    }
}

/// An external command ended with `status`, which is no success.
pub open spec fn child_failed(status: Seq<char>) -> DiagnosticView {
    DiagnosticView {
        kind: ErrorKind::ChildFailure,
        tone: Tone::Warning,
        text: "Command exited with status: "@ + status,
    }
}

/// The prompt could not be shown, for `reason`.
pub open spec fn prompt_failed(reason: Seq<char>) -> DiagnosticView {
    DiagnosticView {
        kind: ErrorKind::Environment,
        tone: Tone::Error,
        text: "Error printing prompt: "@ + reason,
    }
}

/// A line could not be read, for `reason`.
pub open spec fn read_failed(reason: Seq<char>) -> DiagnosticView {
    DiagnosticView {
        kind: ErrorKind::Input,
        tone: Tone::Error,
        text: "Error reading input: "@ + reason,
    }
}

/// Whether `out` is a form in which `d` may reach the terminal: its text
/// as it is for a plain diagnostic, else its text painted in its colour.
pub open spec fn rendering(d: DiagnosticView, out: Seq<char>) -> bool {
    match d.tone {
        Tone::Plain => out == d.text,
        Tone::Warning => painted(d.text, Paint::Yellow, out),
        Tone::Error => painted(d.text, Paint::Red, out),
    }
}

impl Diagnostic {
    /// `cd` was given no directory.
    pub fn missing_dir() -> (d: Diagnostic)
        ensures
            d@ == missing_dir(),
    {
        Diagnostic {
            kind: ErrorKind::Usage,
            tone: Tone::Error,
            text: String::from_str("cd: missing directory argument"),
        }
    }

    /// `cd ~` without a home directory in the environment.
    pub fn home_not_set() -> (d: Diagnostic)
        ensures
            d@ == home_not_set(),
    {
        Diagnostic {
            kind: ErrorKind::Environment,
            tone: Tone::Plain,
            text: String::from_str("cd: HOME directory not set"),
        }
    }

    /// The system refused to change to `dir`, for `reason`.
    pub fn cd_failed(dir: &str, reason: &str) -> (d: Diagnostic)
        ensures
            d@ == cd_failed(dir@, reason@),
    {
        let mut text = String::from_str("cd: ");
        text.append(dir);
        text.append(": ");
        text.append(reason);
        Diagnostic { kind: ErrorKind::Navigation, tone: Tone::Plain, text }
    }

    /// An external command could not be started, for `reason`.
    pub fn spawn_failed(reason: &str) -> (d: Diagnostic)
        ensures
            d@ == spawn_failed(reason@),
    {
        let mut text = String::from_str("Error executing command: ");
        text.append(reason);
        Diagnostic { kind: ErrorKind::Spawn, tone: Tone::Error, text }
    }

    /// An external command ended with `status`, which is no success.
    pub fn child_failed(status: &str) -> (d: Diagnostic)
        ensures
            d@ == child_failed(status@),
    {
        let mut text = String::from_str("Command exited with status: ");
        text.append(status);
        Diagnostic { kind: ErrorKind::ChildFailure, tone: Tone::Warning, text }
    }

    /// The prompt could not be shown, for `reason`.
    pub fn prompt_failed(reason: &str) -> (d: Diagnostic)
        ensures
            d@ == prompt_failed(reason@),
    {
        let mut text = String::from_str("Error printing prompt: ");
        text.append(reason);
        Diagnostic { kind: ErrorKind::Environment, tone: Tone::Error, text }
    }

    /// A line could not be read, for `reason`.
    pub fn read_failed(reason: &str) -> (d: Diagnostic)
        ensures
            d@ == read_failed(reason@),
    {
        let mut text = String::from_str("Error reading input: ");
        text.append(reason);
        Diagnostic { kind: ErrorKind::Input, tone: Tone::Error, text }
    }

    /// The diagnostic as the terminal is to receive it, without a line end.
    pub fn render(&self) -> (out: String)
        ensures
            rendering(self@, out@),
    {
        match self.tone {
            Tone::Plain => self.text.clone(),
            Tone::Warning => paint(self.text.as_str(), Paint::Yellow),
            Tone::Error => paint(self.text.as_str(), Paint::Red),
        }
    }
}

} // verus!
