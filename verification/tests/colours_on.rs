use colored::control::set_override;
use rshell::diagnostic::Diagnostic;
use rshell::paint::{paint, Paint};
use rshell::prompt::{render_prompt, PromptError};
use rshell::shell::Shell;

#[test]
fn each_paint_has_its_escape_sequence() {
    set_override(true);
    assert_eq!(paint("x", Paint::Yellow), "\x1b[33mx\x1b[0m");
    assert_eq!(paint("x", Paint::Blue), "\x1b[34mx\x1b[0m");
    assert_eq!(paint("x", Paint::Red), "\x1b[31mx\x1b[0m");
    assert_eq!(paint("x", Paint::BoldGreen), "\x1b[1;32mx\x1b[0m");
}

#[test]
fn painting_is_not_the_identity() {
    set_override(true);
    for style in [Paint::Yellow, Paint::Blue, Paint::Red, Paint::BoldGreen] {
        assert_ne!(paint("text", style), "text");
        assert_ne!(paint("", style), "");
    }
}

#[test]
fn the_empty_text_is_framed_too() {
    set_override(true);
    assert_eq!(paint("", Paint::Red), "\x1b[31m\x1b[0m");
}

#[test]
fn the_style_is_taken_up_again_after_a_reset_inside_the_text() {
    set_override(true);
    assert_eq!(
        paint("a\x1b[0mb", Paint::Red),
        "\x1b[31ma\x1b[0m\x1b[31mb\x1b[0m"
    );
    assert_eq!(
        paint("\x1b[0m", Paint::Blue),
        "\x1b[34m\x1b[0m\x1b[34m\x1b[0m"
    );
    assert_eq!(
        paint("a\x1b[0m\x1b[0mb\x1b[0m", Paint::BoldGreen),
        "\x1b[1;32ma\x1b[0m\x1b[1;32m\x1b[0m\x1b[1;32mb\x1b[0m\x1b[1;32m\x1b[0m"
    );
}

#[test]
fn other_escape_sequences_are_left_alone() {
    set_override(true);
    assert_eq!(paint("a\x1b[33mb", Paint::Red), "\x1b[31ma\x1b[33mb\x1b[0m");
    assert_eq!(paint("\x1b[0", Paint::Red), "\x1b[31m\x1b[0\x1b[0m");
    assert_eq!(paint("\x1b[0\x1b[0m", Paint::Red), "\x1b[31m\x1b[0\x1b[0m\x1b[31m\x1b[0m");
    assert_eq!(paint("\x1b\x1b[0m", Paint::Yellow), "\x1b[33m\x1b\x1b[0m\x1b[33m\x1b[0m");
    assert_eq!(paint("[0m", Paint::Yellow), "\x1b[33m[0m\x1b[0m");
}

#[test]
fn text_beyond_ascii_is_painted_whole() {
    set_override(true);
    assert_eq!(paint("日本\x1b[0m語", Paint::Blue), "\x1b[34m日本\x1b[0m\x1b[34m語\x1b[0m");
}

#[test]
fn errors_are_red_and_warnings_yellow() {
    set_override(true);
    assert_eq!(
        Diagnostic::missing_dir().render(),
        "\x1b[31mcd: missing directory argument\x1b[0m"
    );
    assert_eq!(
        Diagnostic::spawn_failed("no").render(),
        "\x1b[31mError executing command: no\x1b[0m"
    );
    assert_eq!(
        Diagnostic::child_failed("exit status: 2").render(),
        "\x1b[33mCommand exited with status: exit status: 2\x1b[0m"
    );
    assert_eq!(
        Diagnostic::read_failed("eof").render(),
        "\x1b[31mError reading input: eof\x1b[0m"
    );
    assert_eq!(
        PromptError::HomeNotSet.diagnostic().render(),
        "\x1b[31mError printing prompt: HOME environment variable not set\x1b[0m"
    );
    assert_eq!(
        PromptError::WorkingDir { reason: "gone".to_string() }.diagnostic().render(),
        "\x1b[31mError printing prompt: gone\x1b[0m"
    );
}

#[test]
fn plain_diagnostics_stay_plain() {
    set_override(true);
    assert_eq!(Diagnostic::home_not_set().render(), "cd: HOME directory not set");
    assert_eq!(Diagnostic::cd_failed("x", "y").render(), "cd: x: y");
}

#[test]
fn the_prompt_is_bold_green_around_a_yellow_user_and_a_blue_directory() {
    set_override(true);
    let expected = "\x1b[1;32mrshell @ \x1b[33malice\x1b[0m\x1b[1;32m:\x1b[34m~/src\x1b[0m\x1b[1;32m> \x1b[0m";
    assert_eq!(render_prompt("alice", "~/src"), expected);
    assert_eq!(
        Shell::print_prompt(Some("alice"), Some("/home/alice"), Ok("/home/alice/src")),
        Ok(expected.to_string())
    );
}

#[test]
fn the_prompt_outside_of_home_shows_the_whole_path() {
    set_override(true);
    assert_eq!(
        Shell::print_prompt(Some("bob"), Some("/home/bob"), Ok("/var/log")),
        Ok("\x1b[1;32mrshell @ \x1b[33mbob\x1b[0m\x1b[1;32m:\x1b[34m/var/log\x1b[0m\x1b[1;32m> \x1b[0m"
            .to_string())
    );
}
