use vstd::prelude::*;
use colored::Colorize;

verus! {

/// The colors that status text is drawn in.
pub enum Hue {
    Green,
    Red,
    Yellow,
}

pub open spec fn hue_code(hue: Hue) -> Seq<char> {
    match hue {
        Hue::Green => "32"@,
        Hue::Red => "31"@,
        Hue::Yellow => "33"@,
    }
}

/// `text` wrapped in the terminal escapes that set the foreground color and
/// reset it afterwards.
pub open spec fn painted(text: Seq<char>, hue: Hue) -> Seq<char> {
    "\u{1b}["@ + hue_code(hue) + "m"@ + text + "\u{1b}[0m"@
}

/// What coloring `text` may give: the text unchanged when coloring is off (by
/// environment or terminal), else the text between escapes. Text that holds an
/// escape character of its own is left unconstrained.
pub open spec fn paint_outcome(text: Seq<char>, hue: Hue, r: Seq<char>) -> bool {
    !text.contains('\u{1b}') ==> (r == text || r == painted(text, hue))
}

/// Relies on colored's `green` and `ColoredString`'s display: the input as
/// is, or between `ESC[32m` and `ESC[0m`.
#[verifier::external_body]
pub(crate) fn paint_green(text: &str) -> (r: String)
    ensures
        paint_outcome(text@, Hue::Green, r@),
{
    text.green().to_string()
}

/// Relies on colored's `red` and `ColoredString`'s display: the input as is,
/// or between `ESC[31m` and `ESC[0m`.
#[verifier::external_body]
pub(crate) fn paint_red(text: &str) -> (r: String)
    ensures
        paint_outcome(text@, Hue::Red, r@),
{
    text.red().to_string()
}

/// Relies on colored's `yellow` and `ColoredString`'s display: the input as
/// is, or between `ESC[33m` and `ESC[0m`.
#[verifier::external_body]
pub(crate) fn paint_yellow(text: &str) -> (r: String)
    ensures
        paint_outcome(text@, Hue::Yellow, r@),
{
    text.yellow().to_string()
}

/// Draws `text` in `hue`, as far as the terminal allows.
pub fn paint(text: &str, hue: Hue) -> (r: String)
    ensures
        paint_outcome(text@, hue, r@),
{
    match hue {
        Hue::Green => paint_green(text),
        Hue::Red => paint_red(text),
        Hue::Yellow => paint_yellow(text),
    }
}

} // verus!
