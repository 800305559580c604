//! Terminal colours, applied by the `colored` crate.
//!
//! Whether `colored` emits escape sequences at all is decided by the
//! process environment (`NO_COLOR`, `CLICOLOR`, `CLICOLOR_FORCE`, whether
//! standard output is a terminal), so a painted text has two possible
//! values: the text itself, or the text framed by escape sequences.

use colored::Colorize;
use vstd::prelude::*;

verus! {

/// The styles the shell writes in.
#[derive(Clone, Copy, Debug, PartialEq, Eq, Structural)]
pub enum Paint {
    /// The user's name in the prompt, and warnings.
    Yellow,
    /// The working directory in the prompt.
    Blue,
    /// Errors.
    Red,
    /// The prompt as a whole.
    BoldGreen,
}

/// The escape sequence that ends a styled run.
pub open spec fn reset() -> Seq<char> {
    "\x1b[0m"@
}

/// The escape sequence that switches `paint` on.
pub open spec fn switch_on(paint: Paint) -> Seq<char> {
    match paint {
        Paint::Yellow => "\x1b[33m"@,
        Paint::Blue => "\x1b[34m"@,
        Paint::Red => "\x1b[31m"@,
        Paint::BoldGreen => "\x1b[1;32m"@,
    }
}

/// `text` with `style` repeated after every reset sequence in it, so that a
/// styled run inside `text` does not end the style around it.
pub open spec fn restyled(text: Seq<char>, style: Seq<char>) -> Seq<char>
    decreases text.len(),
{
    if text.len() < 4 {
        text
    } else if text.take(4) == reset() {
        reset() + style + restyled(text.skip(4), style)
    } else {
        text.take(1) + restyled(text.skip(1), style)
    }
}

/// `text` in `paint`, where colours are on.
pub open spec fn styled(text: Seq<char>, paint: Paint) -> Seq<char> {
    switch_on(paint) + restyled(text, switch_on(paint)) + reset()
}

/// Whether `out` is one of the two forms of `text` in `paint`: `text`
/// itself, where colours are off, or `styled(text, paint)`, where they are on.
pub open spec fn painted(text: Seq<char>, paint: Paint, out: Seq<char>) -> bool {
    out == text || out == styled(text, paint)
}

/// Text without an escape character holds no reset sequence, so styling
/// only frames it.
pub proof fn lemma_styled_plain(text: Seq<char>, paint: Paint)
    requires
        !text.contains('\x1b'),
    ensures
        styled(text, paint) == switch_on(paint) + text + reset(),
{
    lemma_restyled_plain(text, switch_on(paint));
}

/// One text with a reset sequence in it, in red: the sequence for red
/// stands at the front and again behind the reset sequence.
pub proof fn example_styled_across_reset()
    ensures
        styled("a\x1b[0mb"@, Paint::Red) == "\x1b[31ma\x1b[0m\x1b[31mb\x1b[0m"@,
{
    reveal_strlit("a\x1b[0mb");
    reveal_strlit("\x1b[0m");
    reveal_strlit("\x1b[31m");
    reveal_strlit("\x1b[31ma\x1b[0m\x1b[31mb\x1b[0m");
    let text = "a\x1b[0mb"@;
    let on = "\x1b[31m"@;
    assert(text.take(4) != reset()) by {
        assert(text.take(4)[0] == 'a');
    }
    assert(text.skip(1).take(4) =~= reset());
    assert(text.skip(1).skip(4) =~= seq!['b']);
    assert(restyled(seq!['b'], on) == seq!['b']);
    assert(restyled(text.skip(1), on) == reset() + on + seq!['b']);
    assert(restyled(text, on) == text.take(1) + (reset() + on + seq!['b']));
    assert(styled(text, Paint::Red) =~= "\x1b[31ma\x1b[0m\x1b[31mb\x1b[0m"@);
}

proof fn lemma_restyled_plain(text: Seq<char>, style: Seq<char>)
    requires
        !text.contains('\x1b'),
    ensures
        restyled(text, style) == text,
    decreases text.len(),
{
    if text.len() >= 4 {
        reveal_strlit("\x1b[0m");
        assert(text[0] != '\x1b');
        let rest = text.skip(1);
        assert forall|c: char| rest.contains(c) implies text.contains(c) by {
            let i = choose|i: int| 0 <= i < rest.len() && rest[i] == c;
            assert(text[i + 1] == c);
        }
        lemma_restyled_plain(rest, style);
        assert(text.take(1) + rest == text);
    }
}

/// `colored::Colorize::yellow` on a string slice, written out through the
/// `Display` impl of `colored::ColoredString`. With colours off that impl
/// writes the text as it is. With colours on it writes the sequence for a
/// yellow foreground, the text with that sequence inserted after every
/// reset sequence in it, and a reset sequence.
#[verifier::external_body]
fn yellow(text: &str) -> (out: String)
    ensures
        painted(text@, Paint::Yellow, out@),
{
    text.yellow().to_string()
}

/// `colored::Colorize::blue` on a string slice, written out through the
/// `Display` impl of `colored::ColoredString`: as `yellow`, with the
/// sequence for a blue foreground.
#[verifier::external_body]
fn blue(text: &str) -> (out: String)
    ensures
        painted(text@, Paint::Blue, out@),
{
    text.blue().to_string()
}

/// `colored::Colorize::red` on a string slice, written out through the
/// `Display` impl of `colored::ColoredString`: as `yellow`, with the
/// sequence for a red foreground.
#[verifier::external_body]
fn red(text: &str) -> (out: String)
    ensures
        painted(text@, Paint::Red, out@),
{
    text.red().to_string()
}

/// `colored::Colorize::bold` on a string slice and `colored::Colorize::green`
/// on its result, written out through the `Display` impl of
/// `colored::ColoredString`: as `yellow`, with the one sequence that sets
/// bold and a green foreground.
#[verifier::external_body]
fn bold_green(text: &str) -> (out: String)
    ensures
        painted(text@, Paint::BoldGreen, out@),
{
    text.bold().green().to_string()
}

/// `text` in the given style, as the terminal is to receive it.
pub fn paint(text: &str, style: Paint) -> (out: String)
    ensures
        painted(text@, style, out@),
{
    match style {
        Paint::Yellow => yellow(text),
        Paint::Blue => blue(text),
        Paint::Red => red(text),
        Paint::BoldGreen => bold_green(text),
    }
}

} // verus!
