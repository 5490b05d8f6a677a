use vstd::prelude::*;

verus! {

/// An opaque RGB color with 8-bit channels. No alpha is modeled: pixel
/// writes always overwrite, never blend.
#[derive(Clone, Copy, PartialEq, Eq, Structural)]
pub struct Color {
    pub r: u8,
    pub g: u8,
    pub b: u8,
}

/// The packed frame-buffer encoding of a color: `0x00RRGGBB`, i.e. the
/// big-endian interpretation of the bytes `[0, r, g, b]` as one `u32`.
pub open spec fn packed(c: Color) -> u32 {
    (c.r as u32 * 0x10000 + c.g as u32 * 0x100 + c.b as u32) as u32
}

impl Color {
    /// Convert this color to the packed pixel encoding used by the frame
    /// buffer.
    pub fn pack(self) -> (p: u32)
        ensures
            p == packed(self),
    {
        self.r as u32 * 0x10000 + self.g as u32 * 0x100 + self.b as u32
    }
}

} // verus!
