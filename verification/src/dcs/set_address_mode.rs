//! The address mode: how frame memory is walked and in which order the
//! colour channels arrive.
use crate::dcs::{fill_byte, DcsCommand};
use crate::error::Error;
use crate::instruction::Instruction;
use crate::options::{ColorOrder, MemoryMapping, ModelOptions, Orientation};
use vstd::prelude::*;

verus! {

/// The weight of a flag's bit in the address mode byte: `weight` where the
/// flag is set, nothing where it is not.
pub open spec fn flag(set: bool, weight: u8) -> int {
    if set {
        weight as int
    } else {
        0
    }
}

/// Sets the address mode. The command holds the flags; the byte on the wire
/// is computed from them.
#[derive(Debug, Clone, Copy, PartialEq, Eq)]
pub struct SetAddressMode {
    /// The order of the colour channels.
    pub color_order: ColorOrder,
    /// How frame memory is walked.
    pub mapping: MemoryMapping,
}

impl SetAddressMode {
    /// The parameter byte. From the most significant bit down: rows reversed
    /// (bit 7), columns reversed (bit 6), rows and columns swapped (bit 5),
    /// and blue before red (bit 3). The other bits are clear.
    pub open spec fn byte(&self) -> u8 {
        (flag(self.mapping.reverse_rows, 0x80) + flag(self.mapping.reverse_columns, 0x40) + flag(
            self.mapping.swap_rows_and_columns,
            0x20,
        ) + flag(self.color_order is Bgr, 0x08)) as u8
    }

    /// The command for a colour order and an orientation.
    pub open spec fn spec_new(color_order: ColorOrder, orientation: Orientation) -> SetAddressMode {
        SetAddressMode { color_order, mapping: MemoryMapping::spec_from_orientation(orientation) }
    }

    /// The command that `options` ask for.
    pub open spec fn spec_from_options(options: ModelOptions) -> SetAddressMode {
        Self::spec_new(options.color_order, options.orientation)
    }

    /// The command for a colour order and an orientation.
    pub fn new(color_order: ColorOrder, orientation: Orientation) -> (mode: Self)
        ensures
            mode == Self::spec_new(color_order, orientation),
    {
        SetAddressMode { color_order, mapping: MemoryMapping::from_orientation(orientation) }
    }

    /// The command that `options` ask for.
    pub fn from_options(options: &ModelOptions) -> (mode: Self)
        ensures
            mode == Self::spec_from_options(*options),
    {
        Self::new(options.color_order, options.orientation)
    }

    /// The same command with another colour order.
    pub fn with_color_order(self, color_order: ColorOrder) -> (mode: Self)
        ensures
            mode == (SetAddressMode { color_order, ..self }),
    {
        SetAddressMode { color_order, mapping: self.mapping }
    }

    /// The same command with another orientation.
    pub fn with_orientation(self, orientation: Orientation) -> (mode: Self)
        ensures
            mode == Self::spec_new(self.color_order, orientation),
    {
        SetAddressMode {
            color_order: self.color_order,
            mapping: MemoryMapping::from_orientation(orientation),
        }
    }

    /// The parameter byte.
    pub fn as_u8(&self) -> (byte: u8)
        ensures
            byte == self.byte(),
    {
        let mut byte: u8 = 0;
        if self.mapping.reverse_rows {
            byte = byte + 0x80;
        }
        if self.mapping.reverse_columns {
            byte = byte + 0x40;
        }
        if self.mapping.swap_rows_and_columns {
            byte = byte + 0x20;
        }
        if matches!(self.color_order, ColorOrder::Bgr) {
            byte = byte + 0x08;
        }
        byte
    }

    /// Each flag is one bit of the byte, and the bits that stand for no flag
    /// are clear.
    pub proof fn lemma_byte_bits(self)
        ensures
            self.byte() & 0x80 != 0 <==> self.mapping.reverse_rows,
            self.byte() & 0x40 != 0 <==> self.mapping.reverse_columns,
            self.byte() & 0x20 != 0 <==> self.mapping.swap_rows_and_columns,
            self.byte() & 0x08 != 0 <==> self.color_order is Bgr,
            self.byte() & 0x17 == 0,
    {
        let a: u8 = if self.mapping.reverse_rows { 0x80 } else { 0 };
        let b: u8 = if self.mapping.reverse_columns { 0x40 } else { 0 };
        let c: u8 = if self.mapping.swap_rows_and_columns { 0x20 } else { 0 };
        let d: u8 = if self.color_order is Bgr { 0x08 } else { 0 };
        let byte = self.byte();
        assert({
            &&& (byte & 0x80 != 0 <==> a != 0)
            &&& (byte & 0x40 != 0 <==> b != 0)
            &&& (byte & 0x20 != 0 <==> c != 0)
            &&& (byte & 0x08 != 0 <==> d != 0)
            &&& byte & 0x17 == 0
        }) by (bit_vector)
            requires
                a == 0 || a == 0x80,
                b == 0 || b == 0x40,
                c == 0 || c == 0x20,
                d == 0 || d == 0x08,
                byte == a + b + c + d,
        ;
    }
}

impl DcsCommand for SetAddressMode {
    open spec fn spec_instruction(&self) -> Instruction {
        Instruction::MADCTL
    }

    open spec fn params(&self) -> Seq<u8> {
        seq![self.byte()]
    }

    fn instruction(&self) -> (instruction: Instruction)
        ensures
            instruction == Instruction::MADCTL,
    {
        Instruction::MADCTL
    }

    /// Writes the one parameter byte.
    fn fill_params_buf(&self, buffer: &mut [u8]) -> (written: Result<usize, Error>)
        ensures
            old(buffer)@.len() >= 1 ==> written == Ok::<usize, Error>(1usize) && final(buffer)@
                == old(buffer)@.update(0, self.byte()),
            old(buffer)@.len() < 1 ==> written == Err::<usize, Error>(Error::BufferTooSmall)
                && final(buffer)@ == old(buffer)@,
    {
        fill_byte(self.as_u8(), buffer)
    }
}

} // verus!
