//! Semantic colors and shell-safe colorization.
//!
//! A colored segment wraps the terminal escape bytes — never the payload
//! text — in zero-width markers, so that a line-editing shell's visible
//! width arithmetic skips the invisible bytes.

use vstd::prelude::*;

verus! {

/// A semantic terminal color.
#[derive(Clone, Copy, PartialEq, Eq, Structural, Debug)]
pub enum Color {
    Black,
    Red,
    Green,
    Yellow,
    Blue,
    Purple,
    Cyan,
    White,
    /// A color from the 256-color table.
    Fixed(u8),
    /// A 24-bit color, as red, green and blue components.
    RGB(u8, u8, u8),
}

/// The decimal digits of `n`, most significant first, no leading zeros.
pub open spec fn dec_of(n: nat) -> Seq<char>
    decreases n,
{
    if n < 10 {
        seq![((48 + n) as u8) as char]
    } else {
        dec_of(n / 10) + seq![((48 + n % 10) as u8) as char]
    }
}

/// The escape code selecting the foreground color `c`.
pub open spec fn color_code(c: Color) -> Seq<char> {
    match c {
        Color::Black => seq!['3', '0'],
        Color::Red => seq!['3', '1'],
        Color::Green => seq!['3', '2'],
        Color::Yellow => seq!['3', '3'],
        Color::Blue => seq!['3', '4'],
        Color::Purple => seq!['3', '5'],
        Color::Cyan => seq!['3', '6'],
        Color::White => seq!['3', '7'],
        Color::Fixed(n) => seq!['3', '8', ';', '5', ';'] + dec_of(n as nat),
        Color::RGB(r, g, b) => seq!['3', '8', ';', '2', ';'] + dec_of(r as nat) + seq![';']
            + dec_of(g as nat) + seq![';'] + dec_of(b as nat),
    }
}

/// The full escape sequence that turns the color `c` on.
pub open spec fn color_on_spec(c: Color) -> Seq<char> {
    seq!['\u{1b}', '['] + color_code(c) + seq!['m']
}

/// The escape sequence that resets the terminal to its normal style.
pub open spec fn color_off_spec() -> Seq<char> {
    seq!['\u{1b}', '[', '0', 'm']
}

#[verifier::external_type_specification]
#[verifier::external_body]
pub struct ExAnsiColour(ansi_term::Colour);

/// Relies on `ansi_term::Colour`'s variants: carries each semantic color
/// over to the matching variant, component for component.
#[verifier::external_body]
fn to_ansi(c: &Color) -> ansi_term::Colour {
    match c {
        Color::Black => ansi_term::Colour::Black,
        Color::Red => ansi_term::Colour::Red,
        Color::Green => ansi_term::Colour::Green,
        Color::Yellow => ansi_term::Colour::Yellow,
        Color::Blue => ansi_term::Colour::Blue,
        Color::Purple => ansi_term::Colour::Purple,
        Color::Cyan => ansi_term::Colour::Cyan,
        Color::White => ansi_term::Colour::White,
        Color::Fixed(n) => ansi_term::Colour::Fixed(*n),
        Color::RGB(r, g, b) => ansi_term::Colour::RGB(*r, *g, *b),
    }
}

/// Relies on `ansi_term::Colour::prefix`: writes `ESC [`, the color's
/// foreground code (`30`–`37`, `38;5;n`, or `38;2;r;g;b` with decimal
/// components), then `m`.
#[verifier::external_body]
fn color_on(c: &Color) -> (r: String)
    ensures
        r@ == color_on_spec(*c),
{
    format!("{}", to_ansi(c).prefix())
}

/// Relies on `ansi_term::Colour::suffix`: a colored style always resets
/// with `ESC [ 0 m`.
#[verifier::external_body]
fn color_off(c: &Color) -> (r: String)
    ensures
        r@ == color_off_spec(),
{
    format!("{}", to_ansi(c).suffix())
}

/// `text` colored with `c`: each of the two escape sequences is bracketed
/// by the zero-width markers, the payload text stands bare between them.
pub open spec fn colorize_spec(text: Seq<char>, c: Color) -> Seq<char> {
    seq!['\u{1}'] + color_on_spec(c) + seq!['\u{2}'] + text + seq!['\u{1}'] + color_off_spec()
        + seq!['\u{2}']
}

/// Wrap `text` in the color's escape sequences, each escape bracketed by
/// the markers that a line-editing shell skips when measuring the prompt.
pub fn colorize(text: &str, c: Color) -> (r: String)
    ensures
        r@ == colorize_spec(text@, c),
{
    proof {
        reveal_strlit("\u{1}");
        reveal_strlit("\u{2}");
    }
    let mut r = String::new();
    r.append("\u{1}");
    r.append(color_on(&c).as_str());
    r.append("\u{2}");
    r.append(text);
    r.append("\u{1}");
    r.append(color_off(&c).as_str());
    r.append("\u{2}");
    proof {
        assert(r@ =~= colorize_spec(text@, c));
    }
    r
}

} // verus!
