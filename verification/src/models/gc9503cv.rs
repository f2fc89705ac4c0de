//! The GC9503CV controller.
use crate::dcs::set_pixel_format::lemma_channel_bits;
use crate::dcs::BitsPerPixel;
use crate::interface::{Frame, InterfaceKind};
use crate::models::{Model, SettleDelays};
use embedded_graphics_core::pixelcolor::{Rgb565, RgbColor};
use vstd::prelude::*;

verus! {

/// GC9503CV display in Rgb565 color mode.
#[derive(Debug, Clone, Copy, PartialEq, Eq)]
pub struct GC9503CV;

/// The largest red value of an `Rgb565` colour: the constant `MAX_R` of
/// `embedded_graphics_core::pixelcolor::RgbColor` as `Rgb565` defines it.
/// That crate gives the channel five bits, so the constant is 31.
#[verifier::external_body]
fn rgb565_max_r() -> (max: u8)
    ensures
        max == 31,
{
    Rgb565::MAX_R
}

/// The largest green value of an `Rgb565` colour: the constant `MAX_G` of
/// `embedded_graphics_core::pixelcolor::RgbColor` as `Rgb565` defines it.
/// That crate gives the channel six bits, so the constant is 63.
#[verifier::external_body]
fn rgb565_max_g() -> (max: u8)
    ensures
        max == 63,
{
    Rgb565::MAX_G
}

/// The largest blue value of an `Rgb565` colour: the constant `MAX_B` of
/// `embedded_graphics_core::pixelcolor::RgbColor` as `Rgb565` defines it.
/// That crate gives the channel five bits, so the constant is 31.
#[verifier::external_body]
fn rgb565_max_b() -> (max: u8)
    ensures
        max == 31,
{
    Rgb565::MAX_B
}

impl Model for GC9503CV {
    open spec fn spec_supports(&self, kind: InterfaceKind) -> bool {
        kind is Serial4Line || kind is Parallel8Bit
    }

    open spec fn spec_framebuffer_size(&self) -> (u16, u16) {
        (480, 480)
    }

    open spec fn spec_bits_per_pixel(&self) -> BitsPerPixel {
        BitsPerPixel::Sixteen
    }

    open spec fn spec_settle_delays(&self) -> SettleDelays {
        SettleDelays { power_on_ms: 120, reset_ms: 120, sleep_out_ms: 120, display_on_ms: 20 }
    }

    open spec fn spec_vendor_registers(&self) -> Seq<(u8, Seq<u8>)> {
        seq![
            (0xB1u8, seq![0x02u8, 0x35, 0x36]),
            (0xB4u8, seq![0x00u8]),
            (0xB7u8, seq![0x02u8]),
            (0xC0u8, seq![0x18u8, 0x18]),
            (0xC1u8, seq![0x41u8]),
            (0xC2u8, seq![0x22u8]),
            (0xC5u8, seq![0x30u8]),
            (
                0xE0u8,
                seq![
                    0x1Fu8, 0x25, 0x22, 0x0B, 0x06, 0x0A, 0x4E, 0xC6, 0x39, 0x00, 0x00, 0x00, 0x00,
                    0x00, 0x00,
                ],
            ),
            (
                0xE1u8,
                seq![
                    0x1Fu8, 0x3F, 0x3F, 0x0F, 0x1F, 0x0F, 0x46, 0x49, 0x3B, 0x0F, 0x0F, 0x0F, 0x0F,
                    0x0F, 0x00,
                ],
            ),
        ]
    }

    /// The controller works on a four-line serial bus and on an eight-bit
    /// parallel bus.
    fn supports(&self, kind: InterfaceKind) -> (supported: bool)
        ensures
            supported == (kind is Serial4Line || kind is Parallel8Bit),
    {
        matches!(kind, InterfaceKind::Serial4Line | InterfaceKind::Parallel8Bit)
    }

    /// 480 by 480 pixels.
    fn framebuffer_size(&self) -> (size: (u16, u16))
        ensures
            size == (480u16, 480u16),
    {
        (480, 480)
    }

    /// The pixel size of `Rgb565`, taken from the channel widths of that
    /// colour type: sixteen bits.
    fn bits_per_pixel(&self) -> (bpp: BitsPerPixel)
        ensures
            bpp == BitsPerPixel::Sixteen,
    {
        proof {
            assert(32 == 1u16 << 5u16 && 64 == 1u16 << 6u16) by (bit_vector);
            lemma_channel_bits(31, 5);
            lemma_channel_bits(63, 6);
        }
        BitsPerPixel::from_rgb_color(rgb565_max_r(), rgb565_max_g(), rgb565_max_b()).unwrap()
    }

    /// 120 ms after power-on, after the reset and after leaving sleep, and
    /// 20 ms after the panel is turned on.
    fn settle_delays(&self) -> (delays: SettleDelays)
        ensures
            delays == (SettleDelays {
                power_on_ms: 120,
                reset_ms: 120,
                sleep_out_ms: 120,
                display_on_ms: 20,
            }),
    {
        SettleDelays { power_on_ms: 120, reset_ms: 120, sleep_out_ms: 120, display_on_ms: 20 }
    }

    fn vendor_register_count(&self) -> (count: usize)
        ensures
            count == 9,
    {
        9
    }

    /// Frame rate, panel driving mode, display inversion, three power
    /// control registers, the Vcom voltage, and the two gamma tables.
    fn vendor_register(&self, index: usize) -> Frame<'_> {
        if index == 0 {
            // Frame rate
            Frame::raw(0xB1, &[0x02, 0x35, 0x36])
        } else if index == 1 {
            // Panel driving mode
            Frame::raw(0xB4, &[0x00])
        } else if index == 2 {
            // Display inversion
            Frame::raw(0xB7, &[0x02])
        } else if index == 3 {
            // Power control
            Frame::raw(0xC0, &[0x18, 0x18])
        } else if index == 4 {
            Frame::raw(0xC1, &[0x41])
        } else if index == 5 {
            Frame::raw(0xC2, &[0x22])
        } else if index == 6 {
            // Vcom voltage
            Frame::raw(0xC5, &[0x30])
        } else if index == 7 {
            // Gamma correction
            Frame::raw(
                0xE0,
                &[
                    0x1F, 0x25, 0x22, 0x0B, 0x06, 0x0A, 0x4E, 0xC6, 0x39, 0x00, 0x00, 0x00, 0x00,
                    0x00, 0x00,
                ],
            )
        } else {
            Frame::raw(
                0xE1,
                &[
                    0x1F, 0x3F, 0x3F, 0x0F, 0x1F, 0x0F, 0x46, 0x49, 0x3B, 0x0F, 0x0F, 0x0F, 0x0F,
                    0x0F, 0x00,
                ],
            )
        }
    }
}

} // verus!
