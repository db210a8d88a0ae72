//! Pixel colours and their byte layout.
use vstd::prelude::*;

verus! {

/// One pixel: red, green, blue and alpha, a byte each.
#[derive(Clone, Copy, Debug, PartialEq, Eq, Structural)]
pub struct Rgba {
    pub r: u8,
    pub g: u8,
    pub b: u8,
    pub a: u8,
}

/// The colour of every pixel that the sprite covers.
pub open spec fn spec_box_color() -> Rgba {
    Rgba { r: 0x5e, g: 0x48, b: 0xe8, a: 0xff }
}

/// The colour of every other pixel.
pub open spec fn spec_background_color() -> Rgba {
    Rgba { r: 0x48, g: 0xb2, b: 0xe8, a: 0xff }
}

/// The colour of every pixel that the sprite covers.
#[verifier::when_used_as_spec(spec_box_color)]
pub fn box_color() -> (res: Rgba)
    ensures
        res == spec_box_color(),
{
    Rgba { r: 0x5e, g: 0x48, b: 0xe8, a: 0xff }
}

/// The colour of every other pixel.
#[verifier::when_used_as_spec(spec_background_color)]
pub fn background_color() -> (res: Rgba)
    ensures
        res == spec_background_color(),
{
    Rgba { r: 0x48, g: 0xb2, b: 0xe8, a: 0xff }
}

impl Rgba {
    /// The four bytes of the pixel in the order in which a frame holds them.
    pub open spec fn bytes(self) -> Seq<u8> {
        seq![self.r, self.g, self.b, self.a]
    }

    /// The pixel as it is written into a frame.
    pub fn get_buffer(&self) -> (res: [u8; 4])
        ensures
            res@ == self.bytes(),
    {
        let res = [self.r, self.g, self.b, self.a];
        assert(res@ =~= self.bytes());
        res
    }
}

} // verus!
