//! Colors of the Molten brand system, taken over as true colors.

use crate::color::Color;
// The brand system's color type, under a name that leaves `Color` to this
// crate's own.
use molten_brand::Color as BrandColor;
use vstd::prelude::*;
use vstd::std_specs::convert::FromSpecImpl;

verus! {

/// `molten_brand::Rgb`: a solid color as three public channels.
#[verifier::external_type_specification]
pub struct ExRgb(molten_brand::Rgb);

/// `molten_brand::Rgba`: a color as three public channels and an alpha.
#[verifier::external_type_specification]
pub struct ExRgba(molten_brand::Rgba);

/// `molten_brand::Color`: a solid color or a color with alpha.
#[verifier::external_type_specification]
pub struct ExBrandColor(BrandColor);

/// `molten_brand::Color::to_rgb` hands back the three channels of a solid
/// color as they are, and those of a color with alpha without the alpha.
pub assume_specification[ BrandColor::to_rgb ](color: &BrandColor) -> (out:
    molten_brand::Rgb)
    ensures
        out == match *color {
            BrandColor::Rgb(rgb) => rgb,
            BrandColor::Rgba(rgba) => (molten_brand::Rgb { r: rgba.r, g: rgba.g, b: rgba.b }),
        },
;

/// A solid brand color becomes the true color with the same channels.
impl From<molten_brand::Rgb> for Color {
    fn from(rgb: molten_brand::Rgb) -> (out: Color) {
        Color::Rgb { r: rgb.r, g: rgb.g, b: rgb.b }
    }
}

impl FromSpecImpl<molten_brand::Rgb> for Color {
    open spec fn obeys_from_spec() -> bool {
        true
    }

    open spec fn from_spec(rgb: molten_brand::Rgb) -> Color {
        Color::Rgb { r: rgb.r, g: rgb.g, b: rgb.b }
    }
}

/// A brand color becomes the true color with the same channels; an alpha is
/// left out.
impl From<BrandColor> for Color {
    fn from(color: BrandColor) -> (out: Color) {
        let rgb = color.to_rgb();
        Color::Rgb { r: rgb.r, g: rgb.g, b: rgb.b }
    }
}

impl FromSpecImpl<BrandColor> for Color {
    open spec fn obeys_from_spec() -> bool {
        true
    }

    open spec fn from_spec(color: BrandColor) -> Color {
        match color {
            BrandColor::Rgb(rgb) => Color::Rgb { r: rgb.r, g: rgb.g, b: rgb.b },
            BrandColor::Rgba(rgba) => Color::Rgb { r: rgba.r, g: rgba.g, b: rgba.b },
        }
    }
}

/// Molten Orange - primary brand color.
#[must_use]
pub fn molten() -> (out: Color)
    ensures
        out == (Color::Rgb { r: 249, g: 115, b: 22 }),
{
    Color::Rgb { r: 249, g: 115, b: 22 }
}

/// Goblin Purple - Lair primary color.
#[must_use]
pub fn goblin() -> (out: Color)
    ensures
        out == (Color::Rgb { r: 124, g: 58, b: 237 }),
{
    Color::Rgb { r: 124, g: 58, b: 237 }
}

/// Iron Blue - Hearth primary color.
#[must_use]
pub fn iron() -> (out: Color)
    ensures
        out == (Color::Rgb { r: 59, g: 130, b: 246 }),
{
    Color::Rgb { r: 59, g: 130, b: 246 }
}

/// Forge Black - background color.
#[must_use]
pub fn forge_black() -> (out: Color)
    ensures
        out == (Color::Rgb { r: 10, g: 10, b: 10 }),
{
    Color::Rgb { r: 10, g: 10, b: 10 }
}

/// Success green.
#[must_use]
pub fn success() -> (out: Color)
    ensures
        out == (Color::Rgb { r: 16, g: 185, b: 129 }),
{
    Color::Rgb { r: 16, g: 185, b: 129 }
}

/// Warning amber.
#[must_use]
pub fn warning() -> (out: Color)
    ensures
        out == (Color::Rgb { r: 245, g: 158, b: 11 }),
{
    Color::Rgb { r: 245, g: 158, b: 11 }
}

/// Error red.
#[must_use]
pub fn error() -> (out: Color)
    ensures
        out == (Color::Rgb { r: 239, g: 68, b: 68 }),
{
    Color::Rgb { r: 239, g: 68, b: 68 }
}


} // verus!
