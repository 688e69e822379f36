//! Text rendering: the ANSI painting of a session's prefix, and the exact
//! shape of every string the relay shows or broadcasts.

use vstd::prelude::*;
use crate::model::Color;

verus! {

/// The SGR digit selecting the colour as a foreground colour.
pub open spec fn sgr_digit(c: Color) -> char {
    match c {
        Color::Red => '1',
        Color::Green => '2',
        Color::Yellow => '3',
        Color::Blue => '4',
        Color::Purple => '5',
        Color::Cyan => '6',
    }
}

/// `text` painted in colour `c`: the SGR foreground sequence, the text,
/// and the SGR reset sequence.
pub open spec fn painted(c: Color, text: Seq<char>) -> Seq<char> {
    seq!['\u{1b}', '[', '3', sgr_digit(c), 'm'] + text + seq!['\u{1b}', '[', '0', 'm']
}

/// `\r[<name>]`, the plain prefix before painting.
pub open spec fn plain_prefix(name: Seq<char>) -> Seq<char> {
    "\r["@ + name + "]"@
}

/// The painted prefix shown before everything a session renders.
pub open spec fn prefix_text(c: Color, name: Seq<char>) -> Seq<char> {
    painted(c, plain_prefix(name))
}

/// The session's prompt: the painted prefix followed by `: `.
pub open spec fn prompt_text(c: Color, name: Seq<char>) -> Seq<char> {
    prefix_text(c, name) + ": "@
}

/// The rendering of an outgoing chat message: prompt, then text.
pub open spec fn message_text(c: Color, name: Seq<char>, msg: Seq<char>) -> Seq<char> {
    prompt_text(c, name) + msg
}

/// Relies on `ansi_term::Colour::paint` and its `Display`: a style holding
/// only a foreground colour renders as `ESC [ 3<d> m`, the text, `ESC [ 0 m`,
/// where `<d>` is the colour's SGR digit (red 1, green 2, yellow 3, blue 4,
/// purple 5, cyan 6).
#[verifier::external_body]
pub(crate) fn paint(c: Color, text: &str) -> (r: String)
    ensures
        r@ == painted(c, text@),
{
    let colour = match c {
        Color::Red => ansi_term::Colour::Red,
        Color::Green => ansi_term::Colour::Green,
        Color::Blue => ansi_term::Colour::Blue,
        Color::Yellow => ansi_term::Colour::Yellow,
        Color::Cyan => ansi_term::Colour::Cyan,
        Color::Purple => ansi_term::Colour::Purple,
    };
    colour.paint(text).to_string()
}

/// Builds `\r[<name>]` as an executable string.
pub(crate) fn plain_prefix_string(name: &str) -> (r: String)
    ensures
        r@ == plain_prefix(name@),
{
    let mut p = String::from_str("\r[");
    p.append(name);
    p.append("]");
    p
}

} // verus!
