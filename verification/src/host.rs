//! What crosses the boundary to the host: key symbols coming in, drawing
//! commands going out, and the two services taken from `bracket_lib`.
use vstd::prelude::*;

verus! {

/// A key press, reduced to what the game distinguishes.
#[derive(Clone, Copy, Debug, PartialEq, Eq, Structural)]
pub enum Key {
    /// Start or restart a round.
    Play,
    /// Leave the program.
    Quit,
    /// Upward impulse.
    Flap,
    /// Any other key.
    Other,
}

/// The colors the game paints with.
#[derive(Clone, Copy, Debug, PartialEq, Eq, Structural)]
pub enum Color {
    Black,
    Navy,
    Red,
    Yellow,
}

/// One instruction to the host's renderer.
#[derive(Clone, Copy, Debug, PartialEq, Eq)]
pub enum DrawCommand {
    /// Clear the screen.
    Clear,
    /// Clear the screen to a background color.
    ClearBackground { color: Color },
    /// Put one glyph, given by its code page 437 number, into a cell.
    Glyph { x: i32, y: i32, foreground: Color, background: Color, glyph: u16 },
    /// Print text starting at a cell.
    Text { x: i32, y: i32, text: &'static str },
    /// Print a label directly followed by a number in decimal, starting at a cell.
    Counter { x: i32, y: i32, label: &'static str, value: u32 },
    /// Print text centered on a row.
    TextCentered { y: i32, text: &'static str },
}

/// The code page 437 number that `bracket_lib` assigns to a character.
pub uninterp spec fn cp437(c: char) -> u16;

/// Calls `bracket_lib::prelude::to_cp437`, a fixed table from characters to
/// code page 437 numbers (0 for a character the table lacks). The contract
/// only names the table's entry; it claims no particular number.
#[verifier::external_body]
pub(crate) fn glyph_code(c: char) -> (code: u16)
    ensures
        code == cp437(c),
{
    bracket_lib::prelude::to_cp437(c)
}

/// `bracket_lib`'s random number generator, carried as an opaque value.
#[verifier::external_type_specification]
#[verifier::external_body]
pub struct ExRandomNumberGenerator(bracket_lib::prelude::RandomNumberGenerator);

/// `RandomNumberGenerator::new` seeds a fresh generator from the operating
/// system's entropy, or from the clock where the system offers none. Nothing
/// is claimed about the generator it returns.
pub assume_specification[ bracket_lib::prelude::RandomNumberGenerator::new ]() -> (rng:
    bracket_lib::prelude::RandomNumberGenerator);

/// Calls `RandomNumberGenerator::range`, which draws from the half-open
/// interval: the lower bound may come out, the upper bound never does. It
/// panics on an empty interval, so callers must pass `min < max`. Nothing is
/// claimed about which value of the interval is drawn.
#[verifier::external_body]
pub(crate) fn draw_in_range(
    rng: &mut bracket_lib::prelude::RandomNumberGenerator,
    min: i32,
    max: i32,
) -> (drawn: i32)
    requires
        min < max,
    ensures
        min <= drawn < max,
{
    rng.range(min, max)
}

} // verus!
