//! The row bounds of the address window.
use crate::dcs::{
    be_bytes, decode_bounds, encode_buffer, fill_bounds, fits, from_be_bytes, lemma_be_bytes_bits,
    lemma_bounds_round_trip, read_bounds, DcsCommand,
};
use crate::error::Error;
use crate::instruction::Instruction;
use vstd::prelude::*;

verus! {

/// Sets the first and last row of the address window.
#[derive(Debug, Clone, Copy, PartialEq, Eq)]
pub struct Raset {
    start_row: u16,
    end_row: u16,
}

impl Raset {
    /// The first row of the window.
    pub closed spec fn start_row(&self) -> u16 {
        self.start_row
    }

    /// The last row of the window.
    pub closed spec fn end_row(&self) -> u16 {
        self.end_row
    }

    /// The command that `bytes` encode: the one whose bounds are the first
    /// four bytes.
    pub closed spec fn spec_decode(bytes: Seq<u8>) -> Result<Raset, Error> {
        match decode_bounds(bytes) {
            Ok((start_row, end_row)) => Ok(Raset { start_row, end_row }),
            Err(error) => Err(error),
        }
    }

    /// A window from `start_row` to `end_row`.
    pub fn new(start_row: u16, end_row: u16) -> (raset: Self)
        ensures
            raset.start_row() == start_row,
            raset.end_row() == end_row,
    {
        Self { start_row, end_row }
    }

    /// Reads the command back from its parameter bytes.
    pub fn decode(buffer: &[u8]) -> (raset: Result<Self, Error>)
        ensures
            raset == Self::spec_decode(buffer@),
            raset is Ok <==> buffer@.len() >= 4,
            raset is Err ==> raset == Err::<Self, Error>(Error::BufferTooSmall),
            raset matches Ok(r) ==> r.start_row() == from_be_bytes(
                buffer@[0],
                buffer@[1],
            ) && r.end_row() == from_be_bytes(buffer@[2], buffer@[3]),
    {
        match read_bounds(buffer) {
            Ok((start_row, end_row)) => Ok(Self { start_row, end_row }),
            Err(error) => Err(error),
        }
    }

    /// The parameters are four bytes: the high and the low byte of the
    /// first bound, then the high and the low byte of the last.
    pub proof fn lemma_params_are_big_endian(self)
        ensures
            self.params() == seq![
                (self.start_row() >> 8) as u8,
                (self.start_row() & 0xff) as u8,
                (self.end_row() >> 8) as u8,
                (self.end_row() & 0xff) as u8,
            ],
    {
        lemma_be_bytes_bits(self.start_row);
        lemma_be_bytes_bits(self.end_row);
    }

    /// Encoding a command into a buffer that has room for it, whatever the
    /// buffer held, and decoding what the buffer then holds gives the
    /// command back.
    pub proof fn lemma_round_trip(self, buffer: Seq<u8>)
        ensures
            fits(self.params(), buffer) ==> Self::spec_decode(
                encode_buffer(self.params(), buffer),
            ) == Ok::<Raset, Error>(self),
    {
        lemma_bounds_round_trip(self.start_row, self.end_row, buffer.skip(4));
    }
}

impl DcsCommand for Raset {
    open spec fn spec_instruction(&self) -> Instruction {
        Instruction::RASET
    }

    open spec fn params(&self) -> Seq<u8> {
        be_bytes(self.start_row()) + be_bytes(self.end_row())
    }

    fn instruction(&self) -> (instruction: Instruction)
        ensures
            instruction == Instruction::RASET,
    {
        Instruction::RASET
    }

    /// Writes the two bounds, each most significant byte first: four bytes.
    fn fill_params_buf(&self, buffer: &mut [u8]) -> (written: Result<usize, Error>)
        ensures
            old(buffer)@.len() >= 4 ==> written == Ok::<usize, Error>(4usize) && final(buffer)@
                == be_bytes(self.start_row()) + be_bytes(self.end_row()) + old(buffer)@.skip(4),
            old(buffer)@.len() < 4 ==> written == Err::<usize, Error>(Error::BufferTooSmall)
                && final(buffer)@ == old(buffer)@,
    {
        fill_bounds(self.start_row, self.end_row, buffer)
    }
}

} // verus!
