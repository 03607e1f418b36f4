//! Terminal styling of text. The styled text is what the `console` crate
//! renders: the style's escape sequences, the text, and a reset sequence.
//! Whether styles are shown at all is the terminal's setting, which
//! `console` reads from the environment; callers ask it once and pass the
//! answer on, so that everything else here is a function of its arguments.

use vstd::prelude::*;

verus! {

/// The styles the library uses.
#[derive(Debug, Clone, Copy, PartialEq, Eq, Structural)]
pub enum Paint {
    Red,
    Green,
    Blue,
    Yellow,
    Cyan,
    Magenta,
    White,
    Dim,
    RedBold,
    YellowBold,
    MagentaBold,
}

/// A select-graphic-rendition escape sequence with the given parameter.
pub open spec fn sgr(param: Seq<char>) -> Seq<char> {
    seq!['\x1b', '['] + param + seq!['m']
}

/// The sequence that ends a styled text.
pub open spec fn reset_sequence() -> Seq<char> {
    sgr(seq!['0'])
}

/// The sequences that start a text in the given style.
pub open spec fn paint_prefix(p: Paint) -> Seq<char> {
    match p {
        Paint::Red => sgr(seq!['3', '1']),
        Paint::Green => sgr(seq!['3', '2']),
        Paint::Blue => sgr(seq!['3', '4']),
        Paint::Yellow => sgr(seq!['3', '3']),
        Paint::Cyan => sgr(seq!['3', '6']),
        Paint::Magenta => sgr(seq!['3', '5']),
        Paint::White => sgr(seq!['3', '7']),
        Paint::Dim => sgr(seq!['2']),
        Paint::RedBold => sgr(seq!['3', '1']) + sgr(seq!['1']),
        Paint::YellowBold => sgr(seq!['3', '3']) + sgr(seq!['1']),
        Paint::MagentaBold => sgr(seq!['3', '5']) + sgr(seq!['1']),
    }
}

/// `text` in style `p` when `on`, and unchanged otherwise.
pub open spec fn painted(on: bool, p: Paint, text: Seq<char>) -> Seq<char> {
    if on {
        paint_prefix(p) + text + reset_sequence()
    } else {
        text
    }
}

/// Whether the terminal shows styles (`console::colors_enabled`). The answer
/// comes from the environment and the terminal, so nothing is stated of it.
#[verifier::external_body]
pub(crate) fn terminal_styles_enabled() -> (r: bool) {
    console::colors_enabled()
}

/// `console::style(text).red()`, rendered with styling forced on.
#[verifier::external_body]
fn red(text: &str) -> (r: String)
    ensures
        r@ == paint_prefix(Paint::Red) + text@ + reset_sequence(),
{
    console::style(text).red().force_styling(true).to_string()
}

/// `console::style(text).green()`, rendered with styling forced on.
#[verifier::external_body]
fn green(text: &str) -> (r: String)
    ensures
        r@ == paint_prefix(Paint::Green) + text@ + reset_sequence(),
{
    console::style(text).green().force_styling(true).to_string()
}

/// `console::style(text).blue()`, rendered with styling forced on.
#[verifier::external_body]
fn blue(text: &str) -> (r: String)
    ensures
        r@ == paint_prefix(Paint::Blue) + text@ + reset_sequence(),
{
    console::style(text).blue().force_styling(true).to_string()
}

/// `console::style(text).yellow()`, rendered with styling forced on.
#[verifier::external_body]
fn yellow(text: &str) -> (r: String)
    ensures
        r@ == paint_prefix(Paint::Yellow) + text@ + reset_sequence(),
{
    console::style(text).yellow().force_styling(true).to_string()
}

/// `console::style(text).cyan()`, rendered with styling forced on.
#[verifier::external_body]
fn cyan(text: &str) -> (r: String)
    ensures
        r@ == paint_prefix(Paint::Cyan) + text@ + reset_sequence(),
{
    console::style(text).cyan().force_styling(true).to_string()
}

/// `console::style(text).magenta()`, rendered with styling forced on.
#[verifier::external_body]
fn magenta(text: &str) -> (r: String)
    ensures
        r@ == paint_prefix(Paint::Magenta) + text@ + reset_sequence(),
{
    console::style(text).magenta().force_styling(true).to_string()
}

/// `console::style(text).white()`, rendered with styling forced on.
#[verifier::external_body]
fn white(text: &str) -> (r: String)
    ensures
        r@ == paint_prefix(Paint::White) + text@ + reset_sequence(),
{
    console::style(text).white().force_styling(true).to_string()
}

/// `console::style(text).dim()`, rendered with styling forced on.
#[verifier::external_body]
fn dim(text: &str) -> (r: String)
    ensures
        r@ == paint_prefix(Paint::Dim) + text@ + reset_sequence(),
{
    console::style(text).dim().force_styling(true).to_string()
}

/// `console::style(text).red().bold()`, rendered with styling forced on.
#[verifier::external_body]
fn red_bold(text: &str) -> (r: String)
    ensures
        r@ == paint_prefix(Paint::RedBold) + text@ + reset_sequence(),
{
    console::style(text).red().bold().force_styling(true).to_string()
}

/// `console::style(text).yellow().bold()`, rendered with styling forced on.
#[verifier::external_body]
fn yellow_bold(text: &str) -> (r: String)
    ensures
        r@ == paint_prefix(Paint::YellowBold) + text@ + reset_sequence(),
{
    console::style(text).yellow().bold().force_styling(true).to_string()
}

/// `console::style(text).magenta().bold()`, rendered with styling forced on.
#[verifier::external_body]
fn magenta_bold(text: &str) -> (r: String)
    ensures
        r@ == paint_prefix(Paint::MagentaBold) + text@ + reset_sequence(),
{
    console::style(text).magenta().bold().force_styling(true).to_string()
}

/// `text` in style `p` when `on`, and unchanged otherwise.
pub fn paint(on: bool, p: Paint, text: &str) -> (r: String)
    ensures
        r@ == painted(on, p, text@),
{
    if !on {
        return String::from_str(text);
    }
    match p {
        Paint::Red => red(text),
        Paint::Green => green(text),
        Paint::Blue => blue(text),
        Paint::Yellow => yellow(text),
        Paint::Cyan => cyan(text),
        Paint::Magenta => magenta(text),
        Paint::White => white(text),
        Paint::Dim => dim(text),
        Paint::RedBold => red_bold(text),
        Paint::YellowBold => yellow_bold(text),
        Paint::MagentaBold => magenta_bold(text),
    }
}

/// Append `text` in style `p` (when `on`) to `out`.
pub fn push_painted(out: &mut String, on: bool, p: Paint, text: &str)
    ensures
        final(out)@ == old(out)@ + painted(on, p, text@),
{
    let s = paint(on, p, text);
    out.append(s.as_str());
}

} // verus!
