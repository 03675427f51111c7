//! Color wrapping for the console printers: a status line is surrounded by a
//! color's terminal escape sequence only when ANSI output is enabled.

use vstd::prelude::*;
use crate::level::Level;

verus! {

/// The colors the console printers use.
#[derive(Clone, Copy, PartialEq, Eq, Structural, Debug)]
pub enum Color {
    Red,
    Green,
    Yellow,
}

/// The escape sequence that starts text in the given foreground color.
pub open spec fn color_prefix(c: Color) -> Seq<char> {
    match c {
        Color::Red => "\u{1b}[31m"@,
        Color::Green => "\u{1b}[32m"@,
        Color::Yellow => "\u{1b}[33m"@,
    }
}

/// The escape sequence that resets all styles.
pub open spec fn style_reset() -> Seq<char> {
    "\u{1b}[0m"@
}

/// The text a printer emits: the input surrounded by the color's escape
/// sequences when ANSI output is enabled, the input unchanged otherwise.
pub open spec fn spec_colored(txt: Seq<char>, c: Color, ansi: bool) -> Seq<char> {
    if ansi {
        color_prefix(c) + txt + style_reset()
    } else {
        txt
    }
}

/// Relies on `ansi_term::Colour::paint` and the `Display` of the string it
/// returns: the rendered form is the colour's foreground escape prefix
/// (`ESC [ 3x m`), the text unchanged, then the reset sequence (`ESC [ 0 m`).
#[verifier::external_body]
fn paint(txt: &str, c: &Color) -> (r: String)
    ensures
        r@ == color_prefix(*c) + txt@ + style_reset(),
{
    let colour = match c {
        Color::Red => ansi_term::Colour::Red,
        Color::Green => ansi_term::Colour::Green,
        Color::Yellow => ansi_term::Colour::Yellow,
    };
    colour.paint(txt).to_string()
}

/// Render a status line in the given color: wrapped in the color's escape
/// sequences when `ansi` is true, the text unchanged when it is false.
pub fn colored(txt: &str, c: &Color, ansi: bool) -> (r: String)
    ensures
        r@ == spec_colored(txt@, *c, ansi),
{
    if ansi {
        paint(txt, c)
    } else {
        txt.to_owned()
    }
}

/// The four console printers: each pairs a color with the fixed severity it
/// emits at. The green and red info printers log at info severity; the red
/// and yellow error printers log at error severity.
#[derive(Clone, Copy, PartialEq, Eq, Structural, Debug)]
pub enum Printer {
    InfoGreen,
    InfoRed,
    ErrorRed,
    ErrorYellow,
}

/// The color a printer wraps its text in.
pub open spec fn printer_color(p: Printer) -> Color {
    match p {
        Printer::InfoGreen => Color::Green,
        Printer::InfoRed => Color::Red,
        Printer::ErrorRed => Color::Red,
        Printer::ErrorYellow => Color::Yellow,
    }
}

/// The fixed severity a printer emits at.
pub open spec fn printer_level(p: Printer) -> Level {
    match p {
        Printer::InfoGreen => Level::Info,
        Printer::InfoRed => Level::Info,
        Printer::ErrorRed => Level::Error,
        Printer::ErrorYellow => Level::Error,
    }
}

/// Render one status line for a printer: the color-wrapped (or, without
/// ANSI, unchanged) text together with the severity to emit it at.
pub fn render_status(p: &Printer, txt: &str, ansi: bool) -> (r: (String, Level))
    ensures
        r.0@ == spec_colored(txt@, printer_color(*p), ansi),
        r.1 == printer_level(*p),
{
    let c = match p {
        Printer::InfoGreen => Color::Green,
        Printer::InfoRed => Color::Red,
        Printer::ErrorRed => Color::Red,
        Printer::ErrorYellow => Color::Yellow,
    };
    let l = match p {
        Printer::InfoGreen => Level::Info,
        Printer::InfoRed => Level::Info,
        Printer::ErrorRed => Level::Error,
        Printer::ErrorYellow => Level::Error,
    };
    (colored(txt, &c, ansi), l)
}

/// With ANSI disabled the rendered text is the input itself, so it holds no
/// escape character the input does not hold; with ANSI enabled the escape
/// sequences surround the input unmodified.
pub proof fn lemma_colored_escapes(txt: Seq<char>, c: Color)
    ensures
        spec_colored(txt, c, false) == txt,
        (forall|i: int| 0 <= i < txt.len() ==> txt[i] != '\u{1b}') ==> (forall|i: int|
            0 <= i < spec_colored(txt, c, false).len() ==> spec_colored(txt, c, false)[i]
                != '\u{1b}'),
        spec_colored(txt, c, true).subrange(
            color_prefix(c).len() as int,
            color_prefix(c).len() + txt.len() as int,
        ) == txt,
        spec_colored(txt, c, true).len() == color_prefix(c).len() + txt.len()
            + style_reset().len(),
{
    assert(spec_colored(txt, c, true).subrange(
        color_prefix(c).len() as int,
        color_prefix(c).len() + txt.len() as int,
    ) =~= txt);
}

} // verus!
