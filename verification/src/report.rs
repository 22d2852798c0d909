//! The line that tells the user of a fatal error.

use ansi_term::Colour;
use vstd::prelude::*;
use vstd::string::StringExecFns;

verus! {

/// The escape sequence that turns the text after it red.
pub open spec fn red_prefix() -> Seq<char> {
    seq!['\x1B', '[', '3', '1', 'm']
}

/// The escape sequence that turns the text after it bold and red.
pub open spec fn bold_red_prefix() -> Seq<char> {
    seq!['\x1B', '[', '1', ';', '3', '1', 'm']
}

/// The escape sequence that ends every style.
pub open spec fn style_reset() -> Seq<char> {
    seq!['\x1B', '[', '0', 'm']
}

/// The error line for the message `error`: the tag `[ERROR]` in bold red, a
/// space, and the message in red.
pub open spec fn error_line(error: Seq<char>) -> Seq<char> {
    bold_red_prefix() + seq!['[', 'E', 'R', 'R', 'O', 'R', ']'] + style_reset() + seq![' ']
        + red_prefix() + error + style_reset()
}

/// `ansi_term`'s `Colour::Red.paint(text)`, written out with `to_string`.
///
/// Trusted, not proved: the painted text is the escape sequence for a red
/// foreground, the text unchanged, and the reset sequence.
#[verifier::external_body]
fn paint_red(text: &str) -> (painted: String)
    ensures
        painted@ == red_prefix() + text@ + style_reset(),
{
    Colour::Red.paint(text).to_string()
}

/// `ansi_term`'s `Colour::Red.bold().paint(text)`, written out with
/// `to_string`.
///
/// Trusted, not proved: the painted text is the one escape sequence for bold
/// with a red foreground, the text unchanged, and the reset sequence.
#[verifier::external_body]
fn paint_bold_red(text: &str) -> (painted: String)
    ensures
        painted@ == bold_red_prefix() + text@ + style_reset(),
{
    Colour::Red.bold().paint(text).to_string()
}

/// Renders the line that reports a fatal error on a terminal. Printing it
/// and ending the process is left to the program.
pub fn report_error(error: &str) -> (line: String)
    ensures
        line@ == error_line(error@),
{
    proof {
        reveal_strlit("[ERROR]");
        reveal_strlit(" ");
    }
    let mut line: String = paint_bold_red("[ERROR]");
    line.append(" ");
    let body: String = paint_red(error);
    line.append(body.as_str());
    assert("[ERROR]"@ =~= seq!['[', 'E', 'R', 'R', 'O', 'R', ']']);
    assert(" "@ =~= seq![' ']);
    assert(line@ =~= error_line(error@));
    line
}

} // verus!
