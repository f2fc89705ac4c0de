//! The column bounds of the address window.
use crate::dcs::{
    be_bytes, decode_bounds, encode_buffer, fill_bounds, fits, from_be_bytes, lemma_be_bytes_bits,
    lemma_bounds_round_trip, read_bounds, DcsCommand,
};
use crate::error::Error;
use crate::instruction::Instruction;
use vstd::prelude::*;

verus! {

/// Sets the first and last column of the address window.
#[derive(Debug, Clone, Copy, PartialEq, Eq)]
pub struct Caset {
    start_column: u16,
    end_column: u16,
}

impl Caset {
    /// The first column of the window.
    pub closed spec fn start_column(&self) -> u16 {
        self.start_column
    }

    /// The last column of the window.
    pub closed spec fn end_column(&self) -> u16 {
        self.end_column
    }

    /// The command that `bytes` encode: the one whose bounds are the first
    /// four bytes.
    pub closed spec fn spec_decode(bytes: Seq<u8>) -> Result<Caset, Error> {
        match decode_bounds(bytes) {
            Ok((start_column, end_column)) => Ok(Caset { start_column, end_column }),
            Err(error) => Err(error),
        }
    }

    /// A window from `start_column` to `end_column`.
    pub fn new(start_column: u16, end_column: u16) -> (caset: Self)
        ensures
            caset.start_column() == start_column,
            caset.end_column() == end_column,
    {
        Self { start_column, end_column }
    }

    /// Reads the command back from its parameter bytes.
    pub fn decode(buffer: &[u8]) -> (caset: Result<Self, Error>)
        ensures
            caset == Self::spec_decode(buffer@),
            caset is Ok <==> buffer@.len() >= 4,
            caset is Err ==> caset == Err::<Self, Error>(Error::BufferTooSmall),
            caset matches Ok(r) ==> r.start_column() == from_be_bytes(
                buffer@[0],
                buffer@[1],
            ) && r.end_column() == from_be_bytes(buffer@[2], buffer@[3]),
    {
        match read_bounds(buffer) {
            Ok((start_column, end_column)) => Ok(Self { start_column, end_column }),
            Err(error) => Err(error),
        }
    }

    /// The parameters are four bytes: the high and the low byte of the
    /// first bound, then the high and the low byte of the last.
    pub proof fn lemma_params_are_big_endian(self)
        ensures
            self.params() == seq![
                (self.start_column() >> 8) as u8,
                (self.start_column() & 0xff) as u8,
                (self.end_column() >> 8) as u8,
                (self.end_column() & 0xff) as u8,
            ],
    {
        lemma_be_bytes_bits(self.start_column);
        lemma_be_bytes_bits(self.end_column);
    }

    /// Encoding a command into a buffer that has room for it, whatever the
    /// buffer held, and decoding what the buffer then holds gives the
    /// command back.
    pub proof fn lemma_round_trip(self, buffer: Seq<u8>)
        ensures
            fits(self.params(), buffer) ==> Self::spec_decode(
                encode_buffer(self.params(), buffer),
            ) == Ok::<Caset, Error>(self),
    {
        lemma_bounds_round_trip(self.start_column, self.end_column, buffer.skip(4));
    }
}

impl DcsCommand for Caset {
    open spec fn spec_instruction(&self) -> Instruction {
        Instruction::CASET
    }

    open spec fn params(&self) -> Seq<u8> {
        be_bytes(self.start_column()) + be_bytes(self.end_column())
    }

    fn instruction(&self) -> (instruction: Instruction)
        ensures
            instruction == Instruction::CASET,
    {
        Instruction::CASET
    }

    /// Writes the two bounds, each most significant byte first: four bytes.
    fn fill_params_buf(&self, buffer: &mut [u8]) -> (written: Result<usize, Error>)
        ensures
            old(buffer)@.len() >= 4 ==> written == Ok::<usize, Error>(4usize) && final(buffer)@
                == be_bytes(self.start_column()) + be_bytes(self.end_column()) + old(buffer)@.skip(4),
            old(buffer)@.len() < 4 ==> written == Err::<usize, Error>(Error::BufferTooSmall)
                && final(buffer)@ == old(buffer)@,
    {
        fill_bounds(self.start_column, self.end_column, buffer)
    }
}

} // verus!
