//! RGBA colors and source-over compositing of one color onto another.

use vstd::prelude::*;

verus! {

/// An RGBA color with 8 bits per channel; `alpha` 0 is fully transparent,
/// 255 fully opaque.
#[derive(Clone, Copy, Debug, PartialEq, Eq, Structural)]
pub struct Color {
    pub red: u8,
    pub green: u8,
    pub blue: u8,
    pub alpha: u8,
}

/// What `image::Pixel::blend` leaves in an `Rgba<u8>` pixel holding `under`
/// after blending `over` into it.
pub uninterp spec fn blend_over(under: Color, over: Color) -> Color;

/// The color seen when `over` is painted on top of `under`.
///
/// A fully transparent `over` leaves `under` as it is and a fully opaque one
/// replaces it; in between the two colors are mixed by the pixel blend of the
/// `image` crate.
pub open spec fn composite(under: Color, over: Color) -> Color {
    if over.alpha == 0 {
        under
    } else if over.alpha == 255 {
        over
    } else {
        blend_over(under, over)
    }
}

/// Calls `image::Pixel::blend` on an `Rgba<u8>` pixel. Trusted: the result is
/// the one that the name `blend_over` stands for; the method computes it from
/// the channels of the two pixels alone and returns for every pair of them.
#[verifier::external_body]
fn blend_pixel(under: Color, over: Color) -> (r: Color)
    ensures
        r == blend_over(under, over),
{
    let mut pixel = image::Rgba([under.red, under.green, under.blue, under.alpha]);
    image::Pixel::blend(&mut pixel, &image::Rgba([over.red, over.green, over.blue, over.alpha]));
    Color { red: pixel.0[0], green: pixel.0[1], blue: pixel.0[2], alpha: pixel.0[3] }
}

impl Color {
    /// Builds a color from its four channels.
    pub fn new(red: u8, green: u8, blue: u8, alpha: u8) -> (c: Color)
        ensures
            c == (Color { red, green, blue, alpha }),
    {
        Color { red, green, blue, alpha }
    }

    /// Paints `over` on top of this color.
    pub fn blend(self, over: Color) -> (r: Color)
        ensures
            r == composite(self, over),
            over.alpha == 0 ==> r == self,
            over.alpha == 255 ==> r == over,
    {
        if over.alpha == 0 {
            self
        } else if over.alpha == 255 {
            over
        } else {
            blend_pixel(self, over)
        }
    }
}

} // verus!
