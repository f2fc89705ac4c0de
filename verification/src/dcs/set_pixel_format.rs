//! The pixel format: how many bits make a pixel on each of the two pixel
//! interfaces of a controller.
use crate::dcs::{fill_byte, DcsCommand};
use crate::error::Error;
use crate::instruction::Instruction;
use vstd::prelude::*;
use vstd::std_specs::bits::{axiom_u8_trailing_ones, u8_trailing_ones};

verus! {

/// The number of bits in a pixel.
#[derive(Debug, Clone, Copy, PartialEq, Eq)]
pub enum BitsPerPixel {
    Three,
    Eight,
    Twelve,
    Sixteen,
    Eighteen,
    TwentyFour,
}

/// The number of bits of a colour channel whose largest value is `max`: the
/// number of ones that `max` ends in.
pub open spec fn channel_bits(max: u8) -> nat {
    u8_trailing_ones(max) as nat
}

impl BitsPerPixel {
    /// The three-bit code that the command set gives to this pixel size.
    pub open spec fn spec_code(self) -> u8 {
        match self {
            BitsPerPixel::Three => 1,
            BitsPerPixel::Eight => 2,
            BitsPerPixel::Twelve => 3,
            BitsPerPixel::Sixteen => 5,
            BitsPerPixel::Eighteen => 6,
            BitsPerPixel::TwentyFour => 7,
        }
    }

    /// The pixel size of `bits` bits, where the command set has one.
    pub open spec fn spec_from_bits(bits: nat) -> Option<BitsPerPixel> {
        if bits == 3 {
            Some(BitsPerPixel::Three)
        } else if bits == 8 {
            Some(BitsPerPixel::Eight)
        } else if bits == 12 {
            Some(BitsPerPixel::Twelve)
        } else if bits == 16 {
            Some(BitsPerPixel::Sixteen)
        } else if bits == 18 {
            Some(BitsPerPixel::Eighteen)
        } else if bits == 24 {
            Some(BitsPerPixel::TwentyFour)
        } else {
            None
        }
    }

    /// The three-bit code that the command set gives to this pixel size.
    pub fn code(self) -> (code: u8)
        ensures
            code == self.spec_code(),
    {
        match self {
            BitsPerPixel::Three => 1,
            BitsPerPixel::Eight => 2,
            BitsPerPixel::Twelve => 3,
            BitsPerPixel::Sixteen => 5,
            BitsPerPixel::Eighteen => 6,
            BitsPerPixel::TwentyFour => 7,
        }
    }

    /// The pixel size of an RGB colour whose channels have the largest values
    /// `max_r`, `max_g` and `max_b`: the bits of the three channels together.
    /// `None` where the command set has no code for that many bits.
    pub fn from_rgb_color(max_r: u8, max_g: u8, max_b: u8) -> (bpp: Option<BitsPerPixel>)
        ensures
            bpp == Self::spec_from_bits(
                channel_bits(max_r) + channel_bits(max_g) + channel_bits(max_b),
            ),
    {
        proof {
            axiom_u8_trailing_ones(max_r);
            axiom_u8_trailing_ones(max_g);
            axiom_u8_trailing_ones(max_b);
        }
        let bits: u32 = max_r.trailing_ones() + max_g.trailing_ones() + max_b.trailing_ones();
        if bits == 3 {
            Some(BitsPerPixel::Three)
        } else if bits == 8 {
            Some(BitsPerPixel::Eight)
        } else if bits == 12 {
            Some(BitsPerPixel::Twelve)
        } else if bits == 16 {
            Some(BitsPerPixel::Sixteen)
        } else if bits == 18 {
            Some(BitsPerPixel::Eighteen)
        } else if bits == 24 {
            Some(BitsPerPixel::TwentyFour)
        } else {
            None
        }
    }
}

/// A channel of `width` bits, whose largest value `max` is one less than
/// two to the power `width`, has `width` bits.
pub proof fn lemma_channel_bits(max: u8, width: u8)
    requires
        width <= 8,
        max + 1 == 1u16 << (width as u16),
    ensures
        channel_bits(max) == width,
{
    let ones: u32 = u8_trailing_ones(max);
    axiom_u8_trailing_ones(max);
    let shift: u8 = ones as u8;
    if ones == 8 {
        assert(width == 8) by (bit_vector)
            requires
                width <= 8,
                max == 0xffu8,
                max + 1 == 1u16 << (width as u16),
        ;
    } else {
        assert(shift >= width) by (bit_vector)
            requires
                width <= 8,
                shift < 8,
                max + 1 == 1u16 << (width as u16),
                (max >> shift) & 1u8 == 0u8,
        ;
        if ones > width {
            assert((max >> width) & 1u8 == 0u8) by (bit_vector)
                requires
                    width < 8,
                    max + 1 == 1u16 << (width as u16),
            ;
        }
    }
}

/// The pixel sizes on the two pixel interfaces of a controller.
#[derive(Debug, Clone, Copy, PartialEq, Eq)]
pub struct PixelFormat {
    /// The pixel size on the display pixel interface.
    pub dpi: BitsPerPixel,
    /// The pixel size on the display bus interface.
    pub dbi: BitsPerPixel,
}

impl PixelFormat {
    /// The byte on the wire: the code of `dpi` in the high four bits and
    /// the code of `dbi` in the low four.
    pub open spec fn byte(&self) -> u8 {
        (self.dpi.spec_code() * 16 + self.dbi.spec_code()) as u8
    }

    /// A format with the same pixel size on both interfaces.
    pub open spec fn spec_with_all(bpp: BitsPerPixel) -> PixelFormat {
        PixelFormat { dpi: bpp, dbi: bpp }
    }

    /// A format with one pixel size for each interface.
    pub fn new(dpi: BitsPerPixel, dbi: BitsPerPixel) -> (format: Self)
        ensures
            format == (PixelFormat { dpi, dbi }),
    {
        PixelFormat { dpi, dbi }
    }

    /// A format with the same pixel size on both interfaces.
    pub fn with_all(bpp: BitsPerPixel) -> (format: Self)
        ensures
            format == Self::spec_with_all(bpp),
    {
        PixelFormat { dpi: bpp, dbi: bpp }
    }

    /// The byte on the wire.
    pub fn as_u8(&self) -> (byte: u8)
        ensures
            byte == self.byte(),
    {
        self.dpi.code() * 16 + self.dbi.code()
    }

    /// The two codes sit in the two halves of the byte.
    pub proof fn lemma_byte_nibbles(self)
        ensures
            self.byte() >> 4 == self.dpi.spec_code(),
            self.byte() & 0x0f == self.dbi.spec_code(),
    {
        let high: u8 = self.dpi.spec_code();
        let low: u8 = self.dbi.spec_code();
        let byte: u8 = self.byte();
        assert(byte >> 4 == high && byte & 0x0f == low) by (bit_vector)
            requires
                high < 8,
                low < 8,
                byte == high * 16 + low,
        ;
    }
}

/// Sets the pixel format.
#[derive(Debug, Clone, Copy, PartialEq, Eq)]
pub struct SetPixelFormat(pub PixelFormat);

impl SetPixelFormat {
    /// A command that selects `format`.
    pub fn new(format: PixelFormat) -> (command: Self)
        ensures
            command == SetPixelFormat(format),
    {
        SetPixelFormat(format)
    }
}

impl DcsCommand for SetPixelFormat {
    open spec fn spec_instruction(&self) -> Instruction {
        Instruction::COLMOD
    }

    open spec fn params(&self) -> Seq<u8> {
        seq![self.0.byte()]
    }

    fn instruction(&self) -> (instruction: Instruction)
        ensures
            instruction == Instruction::COLMOD,
    {
        Instruction::COLMOD
    }

    /// Writes the one parameter byte.
    fn fill_params_buf(&self, buffer: &mut [u8]) -> (written: Result<usize, Error>)
        ensures
            old(buffer)@.len() >= 1 ==> written == Ok::<usize, Error>(1usize) && final(buffer)@
                == old(buffer)@.update(0, self.0.byte()),
            old(buffer)@.len() < 1 ==> written == Err::<usize, Error>(Error::BufferTooSmall)
                && final(buffer)@ == old(buffer)@,
    {
        fill_byte(self.0.as_u8(), buffer)
    }
}

} // verus!
