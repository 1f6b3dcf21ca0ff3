//! Colours, as the drawing surface takes them.

use vstd::prelude::*;

verus! {

/// A colour in sRGB with premultiplied alpha, one byte per channel.
#[derive(Clone, Copy, Debug, PartialEq, Eq, Structural)]
pub struct Color {
    pub r: u8,
    pub g: u8,
    pub b: u8,
    pub a: u8,
}

impl View for Color {
    type V = Seq<u8>;

    /// The four channels in the order red, green, blue, alpha.
    open spec fn view(&self) -> Seq<u8> {
        seq![self.r, self.g, self.b, self.a]
    }
}

/// What `epaint::color::tint_color_towards` returns for `color` and `target`.
/// Each of the three colours stands here as its four channels: red, green,
/// blue and alpha.
pub uninterp spec fn tinted(color: Seq<u8>, target: Seq<u8>) -> Seq<u8>;

impl Color {
    /// The opaque colour with the given channels.
    pub fn from_rgb(r: u8, g: u8, b: u8) -> (c: Color)
        ensures
            c == (Color { r, g, b, a: 255 }),
    {
        Color { r, g, b, a: 255 }
    }

    /// The opaque middle grey that a marker has until it is given a colour.
    pub fn gray() -> (c: Color)
        ensures
            c == (Color { r: 160, g: 160, b: 160, a: 255 }),
    {
        Color::from_rgb(160, 160, 160)
    }
}

/// Calls `epaint::color::tint_color_towards`. The contract claims that the
/// result depends on the channels of the two colours alone, and names it; it
/// claims nothing about which colour that is.
#[verifier::external_body]
pub(crate) fn tint_towards(color: Color, target: Color) -> (c: Color)
    ensures
        c@ == tinted(color@, target@),
{
    let own = eframe::epaint::Color32::from_rgba_premultiplied(color.r, color.g, color.b, color.a);
    let other =
        eframe::epaint::Color32::from_rgba_premultiplied(target.r, target.g, target.b, target.a);
    let [r, g, b, a] = eframe::epaint::color::tint_color_towards(own, other).to_array();
    Color { r, g, b, a }
}

} // verus!
