use rshell::command::{execute_command, Action};
use rshell::diagnostic::{Diagnostic, ErrorKind, Tone};
use rshell::prompt::PromptError;
use rshell::session::{CdAnswer, Session};

fn at(path: &str) -> Session {
    Session::new(Ok(path.to_string()))
}

fn moved(path: &str) -> CdAnswer {
    CdAnswer::Moved { cwd: Ok(path.to_string()) }
}

fn refused(reason: &str) -> CdAnswer {
    CdAnswer::Refused { reason: reason.to_string() }
}

#[test]
fn a_session_starts_where_it_is_told() {
    assert_eq!(at("/srv/www").cwd(), Ok("/srv/www"));
    assert_eq!(at("").cwd(), Ok(""));
}

#[test]
fn a_session_may_start_without_knowing_where_it_is() {
    let session = Session::new(Err("Permission denied (os error 13)".to_string()));
    assert_eq!(session.cwd(), Err("Permission denied (os error 13)"));
}

#[test]
fn an_accepted_cd_moves_to_the_resolved_path() {
    let mut session = at("/home/alice");
    let report = session.finish_cd("src", moved("/home/alice/src"));
    assert_eq!(report, None);
    assert_eq!(session.cwd(), Ok("/home/alice/src"));
}

#[test]
fn cd_into_a_directory_and_back_to_its_parent() {
    let mut session = at("/home/alice");
    assert_eq!(
        execute_command("cd", &["src"], None),
        Action::ChangeDir { dir: "src".to_string(), target: "src".to_string() }
    );
    assert_eq!(session.finish_cd("src", moved("/home/alice/src")), None);
    assert_eq!(session.cwd(), Ok("/home/alice/src"));
    assert_eq!(
        execute_command("cd", &[".."], None),
        Action::ChangeDir { dir: "..".to_string(), target: "..".to_string() }
    );
    assert_eq!(session.finish_cd("..", moved("/home/alice")), None);
    assert_eq!(session.cwd(), Ok("/home/alice"));
}

#[test]
fn a_refused_cd_changes_nothing_and_is_reported_once() {
    let mut session = at("/home/alice");
    let before = session.cwd().unwrap().as_bytes().to_vec();
    let report = session.finish_cd("/no/such/dir", refused("No such file or directory (os error 2)"));
    assert_eq!(
        report,
        Some(Diagnostic {
            kind: ErrorKind::Navigation,
            tone: Tone::Plain,
            text: "cd: /no/such/dir: No such file or directory (os error 2)".to_string(),
        })
    );
    assert_eq!(session.cwd().unwrap().as_bytes(), &before[..]);
    assert_eq!(session, at("/home/alice"));
}

#[test]
fn the_report_of_a_refused_cd_names_the_directory_as_typed() {
    let mut session = at("/");
    let report = session.finish_cd("~", refused("Not a directory (os error 20)")).unwrap();
    assert_eq!(report.text, "cd: ~: Not a directory (os error 20)");
    assert!(report.text.contains("~"));
    assert_eq!(report.text.lines().count(), 1);
    let denied = session.finish_cd("/root", refused("Permission denied (os error 13)")).unwrap();
    assert_eq!(denied.text, "cd: /root: Permission denied (os error 13)");
    assert_eq!(session.cwd(), Ok("/"));
}

#[test]
fn a_refusal_after_a_change_keeps_the_change() {
    let mut session = at("/a");
    assert_eq!(session.finish_cd("b", moved("/a/b")), None);
    assert!(session.finish_cd("c", refused("gone")).is_some());
    assert_eq!(session.cwd(), Ok("/a/b"));
}

#[test]
fn a_move_to_a_place_that_cannot_be_read_is_no_refusal() {
    let mut session = at("/a");
    let answer = CdAnswer::Moved { cwd: Err("Permission denied (os error 13)".to_string()) };
    assert_eq!(session.finish_cd("hidden", answer), None);
    assert_eq!(session.cwd(), Err("Permission denied (os error 13)"));
}

#[test]
fn a_refusal_leaves_an_unknown_place_unknown() {
    let mut session = Session::new(Err("gone".to_string()));
    assert!(session.finish_cd("x", refused("no")).is_some());
    assert_eq!(session.cwd(), Err("gone"));
    assert_eq!(session.finish_cd("/tmp", moved("/tmp")), None);
    assert_eq!(session.cwd(), Ok("/tmp"));
}

#[test]
fn a_known_place_is_not_changed_by_looking_again() {
    let mut session = at("/a");
    session.observe(Ok("/elsewhere".to_string()));
    assert_eq!(session.cwd(), Ok("/a"));
    session.observe(Err("gone".to_string()));
    assert_eq!(session.cwd(), Ok("/a"));
}

#[test]
fn an_unknown_place_is_looked_up_again() {
    let mut session = Session::new(Err("gone".to_string()));
    session.observe(Err("still gone".to_string()));
    assert_eq!(session.cwd(), Err("still gone"));
    session.observe(Ok("/back".to_string()));
    assert_eq!(session.cwd(), Ok("/back"));
    session.observe(Ok("/other".to_string()));
    assert_eq!(session.cwd(), Ok("/back"));
}

#[test]
fn every_diagnostic_has_its_text_kind_and_tone() {
    let missing = Diagnostic::missing_dir();
    assert_eq!(missing.text, "cd: missing directory argument");
    assert_eq!((missing.kind, missing.tone), (ErrorKind::Usage, Tone::Error));

    let home = Diagnostic::home_not_set();
    assert_eq!(home.text, "cd: HOME directory not set");
    assert_eq!((home.kind, home.tone), (ErrorKind::Environment, Tone::Plain));

    let cd = Diagnostic::cd_failed("x y", "no");
    assert_eq!(cd.text, "cd: x y: no");
    assert_eq!((cd.kind, cd.tone), (ErrorKind::Navigation, Tone::Plain));

    let spawn = Diagnostic::spawn_failed("not found");
    assert_eq!(spawn.text, "Error executing command: not found");
    assert_eq!((spawn.kind, spawn.tone), (ErrorKind::Spawn, Tone::Error));

    let child = Diagnostic::child_failed("signal: 9 (SIGKILL)");
    assert_eq!(child.text, "Command exited with status: signal: 9 (SIGKILL)");
    assert_eq!((child.kind, child.tone), (ErrorKind::ChildFailure, Tone::Warning));

    let prompt = Diagnostic::prompt_failed("Broken pipe");
    assert_eq!(prompt.text, "Error printing prompt: Broken pipe");
    assert_eq!((prompt.kind, prompt.tone), (ErrorKind::Environment, Tone::Error));

    let read = Diagnostic::read_failed("stream did not contain valid UTF-8");
    assert_eq!(read.text, "Error reading input: stream did not contain valid UTF-8");
    assert_eq!((read.kind, read.tone), (ErrorKind::Input, Tone::Error));
}

#[test]
fn diagnostics_take_empty_and_odd_texts() {
    assert_eq!(Diagnostic::cd_failed("", "").text, "cd: : ");
    assert_eq!(Diagnostic::spawn_failed("").text, "Error executing command: ");
    assert_eq!(Diagnostic::child_failed("").text, "Command exited with status: ");
    assert_eq!(Diagnostic::cd_failed("日本", "ない").text, "cd: 日本: ない");
}

#[test]
fn a_plain_diagnostic_is_rendered_as_its_text() {
    assert_eq!(Diagnostic::home_not_set().render(), "cd: HOME directory not set");
    assert_eq!(Diagnostic::cd_failed("\x1b[0m", "x").render(), "cd: \x1b[0m: x");
}

#[test]
fn prompt_errors_say_what_is_missing() {
    assert_eq!(PromptError::UserNotSet.message(), "USER environment variable not set");
    assert_eq!(PromptError::HomeNotSet.message(), "HOME environment variable not set");
    let unreadable = PromptError::WorkingDir { reason: "Permission denied (os error 13)".to_string() };
    assert_eq!(unreadable.message(), "Permission denied (os error 13)");
    assert_eq!(
        unreadable.diagnostic().text,
        "Error printing prompt: Permission denied (os error 13)"
    );
    let d = PromptError::UserNotSet.diagnostic();
    assert_eq!(d.text, "Error printing prompt: USER environment variable not set");
    assert_eq!((d.kind, d.tone), (ErrorKind::Environment, Tone::Error));
    assert_eq!(
        PromptError::HomeNotSet.diagnostic().text,
        "Error printing prompt: HOME environment variable not set"
    );
}
