use vstd::prelude::*;

verus! {

/// The value of a four-character code: the four bytes packed little-endian.
pub open spec fn fourcc_value(a: u8, b: u8, c: u8, d: u8) -> int {
    a as int + 256 * (b as int) + 65536 * (c as int) + 16777216 * (d as int)
}

/// Packs four ASCII bytes little-endian into one 32-bit pixel format code.
pub fn fourcc_code(a: u8, b: u8, c: u8, d: u8) -> (r: u32)
    ensures
        r as int == fourcc_value(a, b, c, d),
{
    (a as u32) + (b as u32) * 256 + (c as u32) * 65536 + (d as u32) * 16777216
}

/// Pixel layouts that a framebuffer can be registered with.
#[derive(Debug, Clone, Copy, PartialEq, Eq, Structural)]
pub enum Format {
    /// 24-bit RGB, code `RG24`.
    RGB888,
    /// 32-bit XRGB, code `XR24`.
    XRGB8888,
}

impl Format {
    /// The four characters of this format's code.
    pub open spec fn spec_chars(self) -> (u8, u8, u8, u8) {
        match self {
            Format::RGB888 => (0x52u8, 0x47u8, 0x32u8, 0x34u8),
            Format::XRGB8888 => (0x58u8, 0x52u8, 0x32u8, 0x34u8),
        }
    }

    pub open spec fn spec_code(self) -> int {
        let (a, b, c, d) = self.spec_chars();
        fourcc_value(a, b, c, d)
    }

    /// The 32-bit code under which the kernel knows this format.
    pub fn code(&self) -> (r: u32)
        ensures
            r as int == self.spec_code(),
    {
        match self {
            Format::RGB888 => fourcc_code('R' as u8, 'G' as u8, '2' as u8, '4' as u8),
            Format::XRGB8888 => fourcc_code('X' as u8, 'R' as u8, '2' as u8, '4' as u8),
        }
    }
}

} // verus!
