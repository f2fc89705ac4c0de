//! The command codec: typed commands and their parameter bytes.
//!
//! A command is an instruction together with zero or more parameter bytes in
//! a layout that the command set fixes. Multi-byte values are big-endian.
use crate::error::Error;
use crate::instruction::Instruction;
use vstd::prelude::*;

pub mod basic;
pub mod caset;
pub mod raset;
pub mod set_address_mode;
pub mod set_pixel_format;

pub use basic::{EnterSleepMode, ExitSleepMode, SetDisplayOn, SetInvertMode};
pub use caset::Caset;
pub use raset::Raset;
pub use set_address_mode::SetAddressMode;
pub use set_pixel_format::{BitsPerPixel, PixelFormat, SetPixelFormat};

verus! {

/// Whether `params` can be written into a buffer that holds `buffer`.
pub open spec fn fits(params: Seq<u8>, buffer: Seq<u8>) -> bool {
    params.len() <= buffer.len()
}

/// What an encoder reports for a buffer that held `buffer` when it was
/// called: the number of parameter bytes, or `BufferTooSmall`.
pub open spec fn encode_result(params: Seq<u8>, buffer: Seq<u8>) -> Result<usize, Error> {
    if fits(params, buffer) {
        Ok(params.len() as usize)
    } else {
        Err(Error::BufferTooSmall)
    }
}

/// What an encoder leaves in a buffer that held `buffer` when it was called:
/// the parameters in front and the rest as it was, or all of it as it was
/// where the parameters do not fit.
pub open spec fn encode_buffer(params: Seq<u8>, buffer: Seq<u8>) -> Seq<u8> {
    if fits(params, buffer) {
        params + buffer.skip(params.len() as int)
    } else {
        buffer
    }
}

/// The two bytes of `value`, most significant first.
pub open spec fn be_bytes(value: u16) -> Seq<u8> {
    seq![(value / 256) as u8, (value % 256) as u8]
}

/// The first of the two bytes holds the high eight bits of the value and
/// the second the low eight.
pub proof fn lemma_be_bytes_bits(value: u16)
    ensures
        be_bytes(value)[0] == (value >> 8) as u8,
        be_bytes(value)[1] == (value & 0xff) as u8,
{
    assert(value / 256 == value >> 8 && value % 256 == value & 0xff) by (bit_vector);
}

/// The value whose most significant byte is `high` and whose least
/// significant byte is `low`.
pub open spec fn from_be_bytes(high: u8, low: u8) -> u16 {
    (high * 256 + low) as u16
}

/// A command of the display command set.
pub trait DcsCommand {
    /// The instruction that announces the command.
    spec fn spec_instruction(&self) -> Instruction;

    /// The parameter bytes that follow the instruction, in wire order.
    spec fn params(&self) -> Seq<u8>;

    /// The instruction that announces the command.
    fn instruction(&self) -> (instruction: Instruction)
        ensures
            instruction == self.spec_instruction(),
    ;

    /// Writes the parameter bytes to the front of `buffer` and returns how
    /// many there are. A buffer that is too short is left as it was.
    fn fill_params_buf(&self, buffer: &mut [u8]) -> (written: Result<usize, Error>)
        ensures
            written == encode_result(self.params(), old(buffer)@),
            final(buffer)@ == encode_buffer(self.params(), old(buffer)@),
    ;
}

/// Writes the one parameter byte `byte` to the front of `buffer`.
pub(crate) fn fill_byte(byte: u8, buffer: &mut [u8]) -> (written: Result<usize, Error>)
    ensures
        written == encode_result(seq![byte], old(buffer)@),
        final(buffer)@ == encode_buffer(seq![byte], old(buffer)@),
{
    if buffer.len() < 1 {
        return Err(Error::BufferTooSmall);
    }
    buffer[0] = byte;
    Ok(1)
}

/// Writes two 16-bit bounds, each most significant byte first, to the front
/// of `buffer`.
pub(crate) fn fill_bounds(start: u16, end: u16, buffer: &mut [u8]) -> (written: Result<
    usize,
    Error,
>)
    ensures
        written == encode_result(be_bytes(start) + be_bytes(end), old(buffer)@),
        final(buffer)@ == encode_buffer(be_bytes(start) + be_bytes(end), old(buffer)@),
{
    if buffer.len() < 4 {
        return Err(Error::BufferTooSmall);
    }
    buffer[0] = (start / 256) as u8;
    buffer[1] = (start % 256) as u8;
    buffer[2] = (end / 256) as u8;
    buffer[3] = (end % 256) as u8;
    Ok(4)
}

/// Reads two 16-bit bounds, each most significant byte first, from the front
/// of `buffer`.
pub(crate) fn read_bounds(buffer: &[u8]) -> (bounds: Result<(u16, u16), Error>)
    ensures
        bounds == decode_bounds(buffer@),
{
    if buffer.len() < 4 {
        return Err(Error::BufferTooSmall);
    }
    let start: u16 = buffer[0] as u16 * 256 + buffer[1] as u16;
    let end: u16 = buffer[2] as u16 * 256 + buffer[3] as u16;
    Ok((start, end))
}

/// The two bounds that the first four bytes of `bytes` hold, or
/// `BufferTooSmall` where there are fewer than four.
pub open spec fn decode_bounds(bytes: Seq<u8>) -> Result<(u16, u16), Error> {
    if bytes.len() < 4 {
        Err(Error::BufferTooSmall)
    } else {
        Ok((from_be_bytes(bytes[0], bytes[1]), from_be_bytes(bytes[2], bytes[3])))
    }
}

/// Decoding what was encoded gives the bounds back, whatever follows the
/// four bytes.
pub proof fn lemma_bounds_round_trip(start: u16, end: u16, rest: Seq<u8>)
    ensures
        decode_bounds(be_bytes(start) + be_bytes(end) + rest) == Ok::<(u16, u16), Error>(
            (start, end),
        ),
{
}

} // verus!
