//! Styled lines for the terminal.

use owo_colors::OwoColorize;
use vstd::prelude::*;
use vstd::string::*;

verus! {

/// `s` between the escape sequence that opens a style and the one that
/// closes it.
pub open spec fn styled(open: Seq<char>, s: Seq<char>, close: Seq<char>) -> Seq<char> {
    open + s + close
}

/// `OwoColorize::bold` of owo-colors, rendered: the text between the
/// sequence that switches bold on and the one that resets all styles.
#[verifier::external_body]
fn bold(s: &str) -> (r: String)
    ensures
        r@ == styled("\x1b[1m"@, s@, "\x1b[0m"@),
{
    format!("{}", s.bold())
}

/// `OwoColorize::red` of owo-colors, rendered: the text between the sequence
/// for a red foreground and the one for the default foreground.
#[verifier::external_body]
fn red(s: &str) -> (r: String)
    ensures
        r@ == styled("\x1b[31m"@, s@, "\x1b[39m"@),
{
    format!("{}", s.red())
}

/// `OwoColorize::blue` of owo-colors, rendered: the text between the
/// sequence for a blue foreground and the one for the default foreground.
#[verifier::external_body]
fn blue(s: &str) -> (r: String)
    ensures
        r@ == styled("\x1b[34m"@, s@, "\x1b[39m"@),
{
    format!("{}", s.blue())
}

/// `OwoColorize::white` of owo-colors, rendered: the text between the
/// sequence for a white foreground and the one for the default foreground.
#[verifier::external_body]
fn white(s: &str) -> (r: String)
    ensures
        r@ == styled("\x1b[37m"@, s@, "\x1b[39m"@),
{
    format!("{}", s.white())
}

/// `OwoColorize::bright_yellow` of owo-colors, rendered: the text between
/// the sequence for a bright yellow foreground and the one for the default
/// foreground.
#[verifier::external_body]
fn bright_yellow(s: &str) -> (r: String)
    ensures
        r@ == styled("\x1b[93m"@, s@, "\x1b[39m"@),
{
    format!("{}", s.bright_yellow())
}

/// `OwoColorize::bright_green` of owo-colors, rendered: the text between
/// the sequence for a bright green foreground and the one for the default
/// foreground.
#[verifier::external_body]
fn bright_green(s: &str) -> (r: String)
    ensures
        r@ == styled("\x1b[92m"@, s@, "\x1b[39m"@),
{
    format!("{}", s.bright_green())
}

/// What can be shown as a failure on the terminal.
pub trait AsError {
    /// The text that `print_err` returns.
    spec fn rendered(&self) -> Seq<char>;

    /// The failure as the terminal shows it.
    fn print_err(&self) -> (r: String)
        ensures
            r@ == self.rendered(),
    ;
}

/// `s` in bold.
pub fn emphasized(s: &str) -> (r: String)
    ensures
        r@ == styled("\x1b[1m"@, s@, "\x1b[0m"@),
{
    bold(s)
}

/// The heading of a stage: a line break, then `s` in bold bright yellow.
pub fn title(s: &str) -> (r: String)
    ensures
        r@ == "\n"@ + styled("\x1b[93m"@, styled("\x1b[1m"@, s@, "\x1b[0m"@), "\x1b[39m"@),
{
    let strong = bold(s);
    let coloured = bright_yellow(strong.as_str());
    let mut out = String::from_str("\n");
    out.append(coloured.as_str());
    out
}

/// One step of a stage: a blue `>`, a space, then `s` in white.
pub fn step(s: &str) -> (r: String)
    ensures
        r@ == styled("\x1b[34m"@, ">"@, "\x1b[39m"@) + " "@ + styled("\x1b[37m"@, s@, "\x1b[39m"@),
{
    let mut out = blue(">");
    out.append(" ");
    let text = white(s);
    out.append(text.as_str());
    out
}

/// A failure: `s` in red.
pub fn error(s: &str) -> (r: String)
    ensures
        r@ == styled("\x1b[31m"@, s@, "\x1b[39m"@),
{
    red(s)
}

/// A success: a line break, then `s` in bright green.
pub fn success(s: &str) -> (r: String)
    ensures
        r@ == "\n"@ + styled("\x1b[92m"@, s@, "\x1b[39m"@),
{
    let coloured = bright_green(s);
    let mut out = String::from_str("\n");
    out.append(coloured.as_str());
    out
}

} // verus!
