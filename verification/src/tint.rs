//! Colors for terminals, from `owo_colors`.
//!
//! Each function below shows a text in one color of `owo_colors` and states
//! the escape sequences that `owo_colors` puts round it. Nothing here is
//! proved: the sequences are read off the source of `owo_colors`.

use owo_colors::colors::css::{
    BlueViolet, DimGray, MediumSeaGreen, OrangeRed, Plum, SteelBlue, Yellow,
};
use owo_colors::{OwoColorize, Style};
use vstd::prelude::*;

verus! {

/// `text` in dim gray, the color of timestamps, as a foreground color that is fixed at compile time.
pub open spec fn dim_gray_of(text: Seq<char>) -> Seq<char> {
    "\x1b[38;2;105;105;105m"@ + text + "\x1b[39m"@
}

/// `OwoColorize::fg::<DimGray>` on `text`, displayed. `owo_colors` writes the
/// color's sequence with three digits for each of red, green and blue, then
/// the text, then the sequence that resets the foreground.
#[verifier::external_body]
pub(crate) fn dim_gray(text: &str) -> (r: String)
    ensures
        r@ == dim_gray_of(text@),
{
    format!("{}", text.fg::<DimGray>())
}

/// `text` in medium sea green, the color of targets, as a foreground color that is fixed at compile time.
pub open spec fn medium_sea_green_of(text: Seq<char>) -> Seq<char> {
    "\x1b[38;2;060;179;113m"@ + text + "\x1b[39m"@
}

/// `OwoColorize::fg::<MediumSeaGreen>` on `text`, displayed. `owo_colors` writes the
/// color's sequence with three digits for each of red, green and blue, then
/// the text, then the sequence that resets the foreground.
#[verifier::external_body]
pub(crate) fn medium_sea_green(text: &str) -> (r: String)
    ensures
        r@ == medium_sea_green_of(text@),
{
    format!("{}", text.fg::<MediumSeaGreen>())
}

/// `text` in orange red, the color of `ERROR`, as the foreground color of a style.
pub open spec fn orange_red_of(text: Seq<char>) -> Seq<char> {
    "\x1b[38;2;255;69;0m"@ + text + "\x1b[0m"@
}

/// `OwoColorize::style` on `text` with `Style::new().fg::<OrangeRed>()`,
/// displayed. `owo_colors` writes the color's sequence with red, green and
/// blue as plain numbers, then the text, then the sequence that resets every
/// attribute.
#[verifier::external_body]
pub(crate) fn orange_red(text: &str) -> (r: String)
    ensures
        r@ == orange_red_of(text@),
{
    format!("{}", text.style(Style::new().fg::<OrangeRed>()))
}

/// `text` in yellow, the color of `WARN`, as the foreground color of a style.
pub open spec fn yellow_of(text: Seq<char>) -> Seq<char> {
    "\x1b[38;2;255;255;0m"@ + text + "\x1b[0m"@
}

/// `OwoColorize::style` on `text` with `Style::new().fg::<Yellow>()`,
/// displayed. `owo_colors` writes the color's sequence with red, green and
/// blue as plain numbers, then the text, then the sequence that resets every
/// attribute.
#[verifier::external_body]
pub(crate) fn yellow(text: &str) -> (r: String)
    ensures
        r@ == yellow_of(text@),
{
    format!("{}", text.style(Style::new().fg::<Yellow>()))
}

/// `text` in steel blue, the color of `INFO`, as the foreground color of a style.
pub open spec fn steel_blue_of(text: Seq<char>) -> Seq<char> {
    "\x1b[38;2;70;130;180m"@ + text + "\x1b[0m"@
}

/// `OwoColorize::style` on `text` with `Style::new().fg::<SteelBlue>()`,
/// displayed. `owo_colors` writes the color's sequence with red, green and
/// blue as plain numbers, then the text, then the sequence that resets every
/// attribute.
#[verifier::external_body]
pub(crate) fn steel_blue(text: &str) -> (r: String)
    ensures
        r@ == steel_blue_of(text@),
{
    format!("{}", text.style(Style::new().fg::<SteelBlue>()))
}

/// `text` in plum, the color of `DEBUG`, as the foreground color of a style.
pub open spec fn plum_of(text: Seq<char>) -> Seq<char> {
    "\x1b[38;2;221;160;221m"@ + text + "\x1b[0m"@
}

/// `OwoColorize::style` on `text` with `Style::new().fg::<Plum>()`,
/// displayed. `owo_colors` writes the color's sequence with red, green and
/// blue as plain numbers, then the text, then the sequence that resets every
/// attribute.
#[verifier::external_body]
pub(crate) fn plum(text: &str) -> (r: String)
    ensures
        r@ == plum_of(text@),
{
    format!("{}", text.style(Style::new().fg::<Plum>()))
}

/// `text` in blue violet, the color of `TRACE`, as the foreground color of a style.
pub open spec fn blue_violet_of(text: Seq<char>) -> Seq<char> {
    "\x1b[38;2;138;43;226m"@ + text + "\x1b[0m"@
}

/// `OwoColorize::style` on `text` with `Style::new().fg::<BlueViolet>()`,
/// displayed. `owo_colors` writes the color's sequence with red, green and
/// blue as plain numbers, then the text, then the sequence that resets every
/// attribute.
#[verifier::external_body]
pub(crate) fn blue_violet(text: &str) -> (r: String)
    ensures
        r@ == blue_violet_of(text@),
{
    format!("{}", text.style(Style::new().fg::<BlueViolet>()))
}

} // verus!
