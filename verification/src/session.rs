//! The one piece of state that the loop carries: the working directory.
//!
//! The session holds it as the system last reported it: a path, or the
//! reason why the path could not be read. A known working directory changes
//! when the system has accepted a change of directory, and at no other
//! time. A change that the system refused leaves it as it was.

use crate::command::report_view;
use crate::diagnostic::{cd_failed, Diagnostic};
use vstd::prelude::*;
use vstd::string::*;

verus! {

/// A working directory as the system reports it: the path, or the reason
/// why it cannot be read, as text.
pub open spec fn place(observed: Result<String, String>) -> Result<Seq<char>, Seq<char>> {
    match observed {
        Ok(path) => Ok(path@),
        Err(reason) => Err(reason@),
    }
}

/// The same of borrowed text.
pub open spec fn place_of(observed: Result<&str, &str>) -> Result<Seq<char>, Seq<char>> {
    match observed {
        Ok(path) => Ok(path@),
        Err(reason) => Err(reason@),
    }
}

/// How the system answered a change of directory.
#[derive(Debug, PartialEq, Eq)]
pub enum CdAnswer {
    /// It accepted: the process has moved. `cwd` is the new working
    /// directory as the system reports it after the move.
    Moved { cwd: Result<String, String> },
    /// It refused, for `reason`: the process is where it was.
    Refused { reason: String },
}

/// The working directory of the running shell.
#[derive(Debug, PartialEq, Eq)]
pub struct Session {
    cwd: Result<String, String>,
}

impl View for Session {
    type V = Result<Seq<char>, Seq<char>>;

    /// The working directory, or the reason why it is not known.
    closed spec fn view(&self) -> Result<Seq<char>, Seq<char>> {
        place(self.cwd)
    }
}

impl Session {
    /// A session that starts where the system reports the process to be.
    pub fn new(observed: Result<String, String>) -> (session: Session)
        ensures
            session@ == place(observed),
    {
        Session { cwd: observed }
    }

    /// The working directory, or the reason why it is not known.
    pub fn cwd(&self) -> (cwd: Result<&str, &str>)
        ensures
            place_of(cwd) == self@,
    {
        match &self.cwd {
            Ok(path) => Ok(path.as_str()),
            Err(reason) => Err(reason.as_str()),
        }
    }

    /// Takes in where the system reports the process to be, before a
    /// prompt. A session that knows its working directory keeps it; one
    /// that does not takes what is reported.
    pub fn observe(&mut self, observed: Result<String, String>)
        ensures
            old(self)@ is Ok ==> final(self)@ == old(self)@,
            old(self)@ is Err ==> final(self)@ == place(observed),
    {
        if self.cwd.is_err() {
            self.cwd = observed;
        }
    }

    /// Takes in how the system answered a change of directory to what the
    /// user named `dir`. After a move the working directory is what the
    /// system reports, and nothing is reported to the user. A refusal
    /// leaves the working directory unchanged, and is reported in one
    /// diagnostic that names `dir`.
    pub fn finish_cd(&mut self, dir: &str, answer: CdAnswer) -> (report: Option<Diagnostic>)
        ensures
            match answer {
                CdAnswer::Moved { cwd } => final(self)@ == place(cwd) && report is None,
                CdAnswer::Refused { reason } => final(self)@ == old(self)@ && report_view(report)
                    == Some(cd_failed(dir@, reason@)),
            },
    {
        match answer {
            CdAnswer::Moved { cwd } => {
                self.cwd = cwd;
                None
            },
            CdAnswer::Refused { reason } => Some(Diagnostic::cd_failed(dir, reason.as_str())),
        }
    }
}

} // verus!
