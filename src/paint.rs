use ansi_term::Colour;
use vstd::prelude::*;

verus! {

/// A foreground colour for terminal notices.
#[derive(Clone, Copy, Debug, PartialEq, Eq, Structural)]
pub enum Tone {
    Green,
    Red,
}

/// The SGR parameter that selects the tone as foreground colour.
pub open spec fn tone_code(t: Tone) -> Seq<char> {
    match t {
        Tone::Green => seq!['3', '2'],
        Tone::Red => seq!['3', '1'],
    }
}

/// `s` wrapped in the escape sequence that sets the tone and the one that
/// resets all styles.
pub open spec fn painted(t: Tone, s: Seq<char>) -> Seq<char> {
    seq!['\x1b', '['] + tone_code(t) + seq!['m'] + s + seq!['\x1b', '[', '0', 'm']
}

/// Relies on ansi_term's `Colour::paint` and the `Display` of the painted
/// string: a single foreground colour writes `ESC [ <code> m`, the text,
/// then `ESC [ 0 m`.
#[verifier::external_body]
pub(crate) fn paint(tone: Tone, s: &str) -> (r: String)
    ensures
        r@ == painted(tone, s@),
{
    let colour = match tone {
        Tone::Green => Colour::Green,
        Tone::Red => Colour::Red,
    };
    format!("{}", colour.paint(s))
}

} // verus!
