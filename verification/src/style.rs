//! ANSI styling of text segments, done by `owo_colors`.
//!
//! Each painter wraps its text in a fixed Select-Graphic-Rendition prefix and
//! the reset suffix; the prefixes here are exactly the ones `owo_colors`
//! emits for the corresponding `Style`.

use vstd::prelude::*;
use owo_colors::OwoColorize;
use owo_colors::Style;

verus! {

/// The reset suffix that ends every styled segment.
pub open spec fn ansi_reset() -> Seq<char> {
    "\u{1b}[0m"@
}

/// Prefix for the cyan foreground style.
pub open spec fn cyan_prefix() -> Seq<char> {
    "\u{1b}[36m"@
}

/// Prefix for the blue foreground style.
pub open spec fn blue_prefix() -> Seq<char> {
    "\u{1b}[34m"@
}

/// Prefix for the white foreground style.
pub open spec fn white_prefix() -> Seq<char> {
    "\u{1b}[37m"@
}

/// Prefix for the bold yellow foreground style.
pub open spec fn yellow_bold_prefix() -> Seq<char> {
    "\u{1b}[33;1m"@
}

/// Prefix for the bold red foreground style.
pub open spec fn red_bold_prefix() -> Seq<char> {
    "\u{1b}[31;1m"@
}

/// Prefix for the dimmed white foreground style.
pub open spec fn white_dimmed_prefix() -> Seq<char> {
    "\u{1b}[37;2m"@
}

/// A segment styled with the given prefix: prefix, text, reset.
pub open spec fn spec_styled(prefix: Seq<char>, text: Seq<char>) -> Seq<char> {
    prefix + text + ansi_reset()
}

/// Relies on `owo_colors::OwoColorize::style` with `Style::new().cyan()`:
/// displaying the styled text writes `\x1b[36m`, the text, then `\x1b[0m`.
#[verifier::external_body]
pub fn paint_cyan(text: &str) -> (r: String)
    ensures
        r@ == spec_styled(cyan_prefix(), text@),
{
    format!("{}", text.style(Style::new().cyan()))
}

/// Relies on `owo_colors::OwoColorize::style` with `Style::new().blue()`:
/// displaying the styled text writes `\x1b[34m`, the text, then `\x1b[0m`.
#[verifier::external_body]
pub fn paint_blue(text: &str) -> (r: String)
    ensures
        r@ == spec_styled(blue_prefix(), text@),
{
    format!("{}", text.style(Style::new().blue()))
}

/// Relies on `owo_colors::OwoColorize::style` with `Style::new().white()`:
/// displaying the styled text writes `\x1b[37m`, the text, then `\x1b[0m`.
#[verifier::external_body]
pub fn paint_white(text: &str) -> (r: String)
    ensures
        r@ == spec_styled(white_prefix(), text@),
{
    format!("{}", text.style(Style::new().white()))
}

/// Relies on `owo_colors::OwoColorize::style` with `Style::new().yellow().bold()`:
/// displaying the styled text writes `\x1b[33;1m`, the text, then `\x1b[0m`.
#[verifier::external_body]
pub fn paint_yellow_bold(text: &str) -> (r: String)
    ensures
        r@ == spec_styled(yellow_bold_prefix(), text@),
{
    format!("{}", text.style(Style::new().yellow().bold()))
}

/// Relies on `owo_colors::OwoColorize::style` with `Style::new().red().bold()`:
/// displaying the styled text writes `\x1b[31;1m`, the text, then `\x1b[0m`.
#[verifier::external_body]
pub fn paint_red_bold(text: &str) -> (r: String)
    ensures
        r@ == spec_styled(red_bold_prefix(), text@),
{
    format!("{}", text.style(Style::new().red().bold()))
}

/// Relies on `owo_colors::OwoColorize::style` with `Style::new().white().dimmed()`:
/// displaying the styled text writes `\x1b[37;2m`, the text, then `\x1b[0m`.
#[verifier::external_body]
pub fn paint_white_dimmed(text: &str) -> (r: String)
    ensures
        r@ == spec_styled(white_dimmed_prefix(), text@),
{
    format!("{}", text.style(Style::new().white().dimmed()))
}

} // verus!
