use crossterm::style::Stylize;
use vstd::prelude::*;

verus! {

/// Whether `on` is one of the two sequences by which the terminal library
/// switches the foreground colour to green: the escape sequence with the
/// code of that colour, or, where colours are switched off, the same
/// sequence without a code.
pub open spec fn is_green_on(on: Seq<char>) -> bool {
    on == "\x1b[38;5;10m"@ || on == "\x1b[m"@
}

/// Whether `off` is one of the two sequences by which the terminal library
/// switches the foreground colour back: the escape sequence with the code of
/// the default colour, or, where colours are switched off, the same sequence
/// without a code.
pub open spec fn is_green_off(off: Seq<char>) -> bool {
    off == "\x1b[39m"@ || off == "\x1b[m"@
}

/// Whether `styled` is what the terminal library writes for `line` in green:
/// either `line` between a switch to green and a switch back, or nothing at
/// all. Which of these it is depends on the process and the machine, not on
/// `line`.
pub open spec fn is_green(line: Seq<char>, styled: Seq<char>) -> bool {
    styled == Seq::<char>::empty() || exists|on: Seq<char>, off: Seq<char>|
        #![trigger is_green_on(on), is_green_off(off)]
        is_green_on(on) && is_green_off(off) && styled == on + line + off
}

/// The text that `crossterm::style::Stylize::green` gives for `line` when it
/// is formatted with `Display`.
///
/// Trusted: the contract says what the source of `crossterm` writes for a
/// content with a foreground colour. Before the content it writes the escape
/// sequence that sets the colour, after it the one that sets the default
/// colour. With the variable `NO_COLOR` set, or colours switched off by the
/// program, the colour code is left out of a sequence. On a Windows console
/// that takes no escape sequences it writes nothing, the content included:
/// the result is then the empty text.
#[verifier::external_body]
pub(crate) fn green(line: String) -> (styled: String)
    ensures
        is_green(line@, styled@),
{
    format!("{}", line.green())
}

} // verus!
