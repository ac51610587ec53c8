use vstd::prelude::*;

verus! {

/// A channel value of 1000 thousandths stands for full intensity.
pub const CHANNEL_FULL: u16 = 1000;

/// A background color with red, green, blue and alpha channels, each stored
/// in thousandths of full intensity (0 is black or fully transparent,
/// `CHANNEL_FULL` is full intensity or fully opaque).
#[derive(Clone, Copy, Debug, PartialEq, Eq, Structural)]
pub struct Rgba {
    pub r: u16,
    pub g: u16,
    pub b: u16,
    pub a: u16,
}

impl Rgba {
    /// Every channel stays within full intensity.
    pub open spec fn well_formed(self) -> bool {
        &&& self.r <= CHANNEL_FULL
        &&& self.g <= CHANNEL_FULL
        &&& self.b <= CHANNEL_FULL
        &&& self.a <= CHANNEL_FULL
    }
}

/// The background color in effect from startup and after a right
/// mouse-button press: one, two and three tenths of red, green and blue,
/// fully opaque.
pub open spec fn spec_initial_color() -> Rgba {
    Rgba { r: 100, g: 200, b: 300, a: 1000 }
}

/// The background color after a left mouse-button press: two, three and four
/// tenths of red, green and blue, fully opaque.
pub open spec fn spec_alternate_color() -> Rgba {
    Rgba { r: 200, g: 300, b: 400, a: 1000 }
}

/// The startup background color as a runtime value.
pub fn initial_color() -> (c: Rgba)
    ensures
        c == spec_initial_color(),
        c.well_formed(),
{
    Rgba { r: 100, g: 200, b: 300, a: 1000 }
}

/// The left-press background color as a runtime value.
pub fn alternate_color() -> (c: Rgba)
    ensures
        c == spec_alternate_color(),
        c.well_formed(),
{
    Rgba { r: 200, g: 300, b: 400, a: 1000 }
}

} // verus!
