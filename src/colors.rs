use vstd::prelude::*;

verus! {

/// Packs three 8-bit channels into one 24-bit value: `red * 65536 + green * 256 + blue`.
pub open spec fn packed_rgb(red: u8, green: u8, blue: u8) -> u32 {
    (red as int * 65536 + green as int * 256 + blue as int) as u32
}

/// An RGB color with one 8-bit value per channel.
#[derive(Clone, Copy, Debug, PartialEq, Eq, Structural)]
pub struct Rgb {
    pub red: u8,
    pub green: u8,
    pub blue: u8,
}

impl Rgb {
    /// The value this color takes in a pixel buffer.
    pub open spec fn spec_packed(&self) -> u32 {
        packed_rgb(self.red, self.green, self.blue)
    }

    pub fn new(red: u8, green: u8, blue: u8) -> (r: Rgb)
        ensures
            r.red == red,
            r.green == green,
            r.blue == blue,
    {
        Rgb { red, green, blue }
    }

    /// Combines the channels into one value, red in the highest of the three bytes.
    pub fn packed(&self) -> (r: u32)
        ensures
            r == self.spec_packed(),
            r < 0x100_0000,
    {
        (self.red as u32) * 65536 + (self.green as u32) * 256 + (self.blue as u32)
    }
}

} // verus!
