//! Plain 8-bit RGB colours and the palette that the panel's logic chooses from.
use vstd::prelude::*;

verus! {

/// An opaque colour given by its red, green and blue channels.
#[derive(Clone, Copy, Debug, PartialEq, Eq, Structural)]
pub struct Rgb {
    pub r: u8,
    pub g: u8,
    pub b: u8,
}

impl Rgb {
    /// Builds a colour from its three channels.
    #[verifier::allow_in_spec]
    pub fn new(r: u8, g: u8, b: u8) -> Rgb
        returns
            (Rgb { r, g, b }),
    {
        Rgb { r, g, b }
    }
}

/// The dark ink used for highlighted labels and text.
#[verifier::allow_in_spec]
pub fn text_dark() -> Rgb
    returns
        Rgb::new(0x16, 0x1B, 0x26),
{
    Rgb::new(0x16, 0x1B, 0x26)
}

/// The muted grey used for a label whose option is not selected.
#[verifier::allow_in_spec]
pub fn text_muted() -> Rgb
    returns
        Rgb::new(0x9A, 0xA3, 0xB6),
{
    Rgb::new(0x9A, 0xA3, 0xB6)
}

/// The track colour of a switch that is off.
#[verifier::allow_in_spec]
pub fn switch_off() -> Rgb
    returns
        Rgb::new(0xE6, 0xE8, 0xF0),
{
    Rgb::new(0xE6, 0xE8, 0xF0)
}

/// The track colour of the studio/creative switch when it is on.
#[verifier::allow_in_spec]
pub fn creative_accent() -> Rgb
    returns
        Rgb::new(0x8A, 0x9C, 0xFF),
{
    Rgb::new(0x8A, 0x9C, 0xFF)
}

/// The track colour of the auto-gain switch when it is on.
#[verifier::allow_in_spec]
pub fn auto_gain_accent() -> Rgb
    returns
        Rgb::new(0x9A, 0xE8, 0xA0),
{
    Rgb::new(0x9A, 0xE8, 0xA0)
}

/// A meter segment that is not lit.
#[verifier::allow_in_spec]
pub fn meter_unlit() -> Rgb
    returns
        Rgb::new(0xE9, 0xEC, 0xF5),
{
    Rgb::new(0xE9, 0xEC, 0xF5)
}

/// A lit segment in the body of a meter.
#[verifier::allow_in_spec]
pub fn meter_green() -> Rgb
    returns
        Rgb::new(0x2E, 0xE5, 0x7A),
{
    Rgb::new(0x2E, 0xE5, 0x7A)
}

/// A lit segment of the output meter's peak zone.
#[verifier::allow_in_spec]
pub fn meter_peak() -> Rgb
    returns
        Rgb::new(0xFF, 0xC0, 0x52),
{
    Rgb::new(0xFF, 0xC0, 0x52)
}

/// A lit segment at the top of a meter, above the green body.
#[verifier::allow_in_spec]
pub fn meter_headroom() -> Rgb
    returns
        Rgb::new(0xD0, 0xD6, 0xE8),
{
    Rgb::new(0xD0, 0xD6, 0xE8)
}

} // verus!
