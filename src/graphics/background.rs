//! Background sizes and layers.
use vstd::prelude::*;

verus! {

/// Size of a background, in tiles.
#[derive(Clone, Copy, Debug, PartialEq, Eq, Structural)]
pub enum BackgroundSize {
    Bg32x32,
    Bg64x32,
    Bg32x64,
    Bg64x64,
}

/// One of the four hardware background layers.
#[derive(Clone, Copy, Debug, PartialEq, Eq, Structural)]
pub enum BackgroundLayer {
    Bg0,
    Bg1,
    Bg2,
    Bg3,
}

impl BackgroundSize {
    /// Number of 32x32 screenblocks across.
    pub open spec fn spec_width(&self) -> int {
        match self {
            BackgroundSize::Bg64x32 | BackgroundSize::Bg64x64 => 2,
            _ => 1,
        }
    }

    /// Number of 32x32 screenblocks down.
    pub open spec fn spec_height(&self) -> int {
        match self {
            BackgroundSize::Bg32x64 | BackgroundSize::Bg64x64 => 2,
            _ => 1,
        }
    }

    pub fn required_screenblocks(&self) -> (r: usize)
        ensures
            r == self.spec_width() * self.spec_height(),
    {
        self.screenblock_height() * self.screenblock_width()
    }

    pub fn screenblock_width(&self) -> (r: usize)
        ensures
            r == self.spec_width(),
    {
        match self {
            BackgroundSize::Bg32x32 => 1,
            BackgroundSize::Bg32x64 => 1,
            BackgroundSize::Bg64x32 => 2,
            BackgroundSize::Bg64x64 => 2,
        }
    }

    pub fn screenblock_height(&self) -> (r: usize)
        ensures
            r == self.spec_height(),
    {
        match self {
            BackgroundSize::Bg32x32 => 1,
            BackgroundSize::Bg64x32 => 1,
            BackgroundSize::Bg32x64 => 2,
            BackgroundSize::Bg64x64 => 2,
        }
    }

    /// The two-bit size code of the background control register.
    pub fn size_bits(&self) -> (r: u16)
        ensures
            r == (match self {
                BackgroundSize::Bg32x32 => 0u16,
                BackgroundSize::Bg64x32 => 1u16,
                BackgroundSize::Bg32x64 => 2u16,
                BackgroundSize::Bg64x64 => 3u16,
            }),
    {
        match self {
            BackgroundSize::Bg32x32 => 0b00,
            BackgroundSize::Bg64x32 => 0b01,
            BackgroundSize::Bg32x64 => 0b10,
            BackgroundSize::Bg64x64 => 0b11,
        }
    }
}

impl BackgroundLayer {
    /// Layer number, 0 to 3.
    pub open spec fn number(&self) -> int {
        match self {
            BackgroundLayer::Bg0 => 0,
            BackgroundLayer::Bg1 => 1,
            BackgroundLayer::Bg2 => 2,
            BackgroundLayer::Bg3 => 3,
        }
    }

    /// Drawing priority: layer 0 is drawn at the back (3), layer 3 at the front (0).
    pub fn get_priority(&self) -> (r: u16)
        ensures
            r == 3 - self.number(),
    {
        match self {
            BackgroundLayer::Bg0 => 3,
            BackgroundLayer::Bg1 => 2,
            BackgroundLayer::Bg2 => 1,
            BackgroundLayer::Bg3 => 0,
        }
    }

    /// This layer's show bit in the display-control register.
    pub open spec fn show_bit(&self) -> u16 {
        match self {
            BackgroundLayer::Bg0 => 0x0100u16,
            BackgroundLayer::Bg1 => 0x0200u16,
            BackgroundLayer::Bg2 => 0x0400u16,
            BackgroundLayer::Bg3 => 0x0800u16,
        }
    }

    fn show_bit_value(&self) -> (r: u16)
        ensures
            r == self.show_bit(),
    {
        match self {
            BackgroundLayer::Bg0 => 0x0100,
            BackgroundLayer::Bg1 => 0x0200,
            BackgroundLayer::Bg2 => 0x0400,
            BackgroundLayer::Bg3 => 0x0800,
        }
    }

    /// The display-control value `dispcnt` with this layer's show bit set.
    pub fn enable(&self, dispcnt: u16) -> (r: u16)
        ensures
            r == dispcnt | self.show_bit(),
    {
        dispcnt | self.show_bit_value()
    }

    /// The display-control value `dispcnt` with this layer's show bit cleared.
    pub fn disable(&self, dispcnt: u16) -> (r: u16)
        ensures
            r == dispcnt & !self.show_bit(),
    {
        dispcnt & !self.show_bit_value()
    }
}

} // verus!
