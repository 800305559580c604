//! From a command name and its arguments to what the driver has to do.
//!
//! The built-ins are `exit`, `cd`, and the bare names `~` and `..`, which
//! stand for `cd ~` and `cd ..`. Every other name is an external command.
//! Arguments are passed on as they were typed: nothing is expanded.

use crate::diagnostic::{
    child_failed, home_not_set, missing_dir, spawn_failed, Diagnostic, DiagnosticView,
};
use crate::prompt::text_of;
use crate::text::same_text;
use crate::tokens::token_views;
use vstd::prelude::*;
use vstd::string::*;

verus! {

/// What `cd` without an argument does. `true`: it goes to the home
/// directory, as `cd ~` does. `false`: it reports that the argument is
/// missing, and changes nothing.
pub const BARE_CD_GOES_HOME: bool = false;

/// What the driver is asked to do for one line.
#[derive(Debug, PartialEq, Eq)]
pub enum Action {
    /// Nothing; go on with the next line.
    Continue,
    /// Leave the loop; the process ends with success.
    Terminate,
    /// Write the diagnostic to the error channel, and go on.
    Report(Diagnostic),
    /// Make `target` the working directory. `dir` is the directory as the
    /// user named it; the outcome goes to `Session::finish_cd` with it.
    ChangeDir { dir: String, target: String },
    /// Run `program` with `args`, wait for it, and hand the outcome to
    /// `finish_child`.
    Spawn { program: String, args: Vec<String> },
}

/// An action with its texts as sequences of characters.
pub enum ActionView {
    Continue,
    Terminate,
    Report(DiagnosticView),
    ChangeDir { dir: Seq<char>, target: Seq<char> },
    Spawn { program: Seq<char>, args: Seq<Seq<char>> },
}

/// The texts of a list of strings.
pub open spec fn texts(v: Seq<String>) -> Seq<Seq<char>> {
    v.map_values(|s: String| s@)
}

impl View for Action {
    type V = ActionView;

    open spec fn view(&self) -> ActionView {
        match self {
            Action::Continue => ActionView::Continue,
            Action::Terminate => ActionView::Terminate,
            Action::Report(d) => ActionView::Report(d@),
            Action::ChangeDir { dir, target } => ActionView::ChangeDir {
                dir: dir@,
                target: target@,
            },
            Action::Spawn { program, args } => ActionView::Spawn {
                program: program@,
                args: texts(args@),
            },
        }
    }
}

/// How an external command ended.
#[derive(Debug, PartialEq, Eq)]
pub enum ChildOutcome {
    /// It ran to its end. `status` is its exit status in words.
    Exited { success: bool, status: String },
    /// It could not be started.
    NotStarted { reason: String },
}

/// What `cd dir` asks for. `~` is the home directory, where the
/// environment names one; every other name, `..` among them, is a path for
/// the system to resolve.
pub open spec fn cd_action(dir: Seq<char>, home: Option<Seq<char>>) -> ActionView {
    if dir == "~"@ {
        match home {
            Some(h) => ActionView::ChangeDir { dir, target: h },
            None => ActionView::Report(home_not_set()),
        }
    } else {
        ActionView::ChangeDir { dir, target: dir }
    }
}

/// What a command asks for. Arguments of `cd` after the first, and all
/// arguments of `exit`, `~` and `..`, are ignored.
pub open spec fn command_action(
    command: Seq<char>,
    args: Seq<Seq<char>>,
    home: Option<Seq<char>>,
) -> ActionView {
    if command.len() == 0 {
        ActionView::Continue
    } else if command == "exit"@ {
        ActionView::Terminate
    } else if command == "cd"@ {
        if args.len() > 0 {
            cd_action(args[0], home)
        } else if BARE_CD_GOES_HOME {
            cd_action("~"@, home)
        } else {
            ActionView::Report(missing_dir())
        }
    } else if command == ".."@ || command == "~"@ {
        cd_action(command, home)
    } else {
        ActionView::Spawn { program: command, args }
    }
}

/// What is reported of an external command: nothing where it succeeded,
/// its status where it failed, the reason where it did not start.
pub open spec fn child_report(success: bool, status: Seq<char>) -> Option<DiagnosticView> {
    if success {
        None
    } else {
        Some(child_failed(status))
    }
}

/// The diagnostic, if there is one, as a view.
pub open spec fn report_view(d: Option<Diagnostic>) -> Option<DiagnosticView> {
    match d {
        Some(d) => Some(d@),
        None => None,
    }
}

/// Owned copies of `args`, in their order.
fn owned(args: &[&str]) -> (copies: Vec<String>)
    ensures
        texts(copies@) == token_views(args@),
{
    let mut copies: Vec<String> = Vec::new();
    let mut i: usize = 0;
    while i < args.len()
        invariant
            i <= args.len(),
            copies.len() == i,
            forall|k: int| 0 <= k < i ==> (#[trigger] copies@[k])@ == args@[k]@,
        decreases args.len() - i,
    {
        copies.push(String::from_str(args[i]));
        i += 1;
    }
    copies
}

/// Plans the change of directory that `cd dir` asks for.
pub fn handle_cd(dir: &str, home: Option<&str>) -> (action: Action)
    ensures
        action@ == cd_action(dir@, text_of(home)),
{
    if same_text(dir, "~") {
        match home {
            Some(h) => Action::ChangeDir { dir: String::from_str(dir), target: String::from_str(h) },
            None => Action::Report(Diagnostic::home_not_set()),
        }
    } else {
        Action::ChangeDir { dir: String::from_str(dir), target: String::from_str(dir) }
    }
}

/// Plans the execution of `command` with `args`.
pub fn execute_command(command: &str, args: &[&str], home: Option<&str>) -> (action: Action)
    ensures
        action@ == command_action(command@, token_views(args@), text_of(home)),
{
    if command.is_empty() {
        Action::Continue
    } else if same_text(command, "exit") {
        Action::Terminate
    } else if same_text(command, "cd") {
        if args.len() > 0 {
            handle_cd(args[0], home)
        } else if BARE_CD_GOES_HOME {
            handle_cd("~", home)
        } else {
            Action::Report(Diagnostic::missing_dir())
        }
    } else if same_text(command, "..") || same_text(command, "~") {
        handle_cd(command, home)
    } else {
        Action::Spawn { program: String::from_str(command), args: owned(args) }
    }
}

/// What is to be reported once an external command has ended, or has
/// failed to start. Whatever the outcome, the loop goes on.
pub fn finish_child(outcome: &ChildOutcome) -> (report: Option<Diagnostic>)
    ensures
        report_view(report) == match outcome {
            ChildOutcome::Exited { success, status } => child_report(*success, status@),
            ChildOutcome::NotStarted { reason } => Some(spawn_failed(reason@)),
        },
{
    match outcome {
        ChildOutcome::Exited { success, status } => {
            if *success {
                None
            } else {
                Some(Diagnostic::child_failed(status.as_str()))
            }
        },
        ChildOutcome::NotStarted { reason } => Some(Diagnostic::spawn_failed(reason.as_str())),
    }
}

} // verus!
