//! The status LED colour that the firmware cycles through while it runs.

use vstd::prelude::*;

verus! {

/// Brightness of the one lit channel of the status LED.
pub const LED_LEVEL: u8 = 10;

/// An RGB colour of the status LED.
#[derive(Clone, Copy, Debug, PartialEq, Eq, Structural)]
pub struct Rgb {
    pub r: u8,
    pub g: u8,
    pub b: u8,
}

/// The colour the LED starts with: red at `LED_LEVEL`.
pub fn initial_color() -> (c: Rgb)
    ensures
        c == (Rgb { r: LED_LEVEL, g: 0, b: 0 }),
{
    Rgb { r: LED_LEVEL, g: 0, b: 0 }
}

/// The colour of the next loop: the channels move on, blue to red, green to
/// blue and red to green.
pub fn next_color(c: Rgb) -> (n: Rgb)
    ensures
        n == (Rgb { r: c.b, g: c.r, b: c.g }),
{
    let mut n = c;
    let tmp = n.r;
    n.r = n.b;
    n.b = n.g;
    n.g = tmp;
    n
}

pub open spec fn spec_next_color(c: Rgb) -> Rgb {
    Rgb { r: c.b, g: c.r, b: c.g }
}

/// The colour cycle has period three: three steps bring back any colour.
pub proof fn law_color_cycle_period_three(c: Rgb)
    ensures
        spec_next_color(spec_next_color(spec_next_color(c))) == c,
        spec_next_color(c) != c ==> spec_next_color(spec_next_color(c)) != c,
{
}

} // verus!
