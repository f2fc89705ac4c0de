//! Commands that are an instruction and nothing else.
use crate::dcs::DcsCommand;
use crate::error::Error;
use crate::instruction::Instruction;
use crate::options::ColorInversion;
use vstd::prelude::*;

verus! {

/// Wakes the controller from sleep.
#[derive(Debug, Clone, Copy, PartialEq, Eq)]
pub struct ExitSleepMode;

impl DcsCommand for ExitSleepMode {
    open spec fn spec_instruction(&self) -> Instruction {
        Instruction::SLPOUT
    }

    open spec fn params(&self) -> Seq<u8> {
        Seq::empty()
    }

    fn instruction(&self) -> (instruction: Instruction)
        ensures
            instruction == Instruction::SLPOUT,
    {
        Instruction::SLPOUT
    }

    /// Writes nothing, whatever the buffer.
    fn fill_params_buf(&self, buffer: &mut [u8]) -> (written: Result<usize, Error>)
        ensures
            written == Ok::<usize, Error>(0usize),
            final(buffer)@ == old(buffer)@,
    {
        Ok(0)
    }
}

/// Puts the controller to sleep.
#[derive(Debug, Clone, Copy, PartialEq, Eq)]
pub struct EnterSleepMode;

impl DcsCommand for EnterSleepMode {
    open spec fn spec_instruction(&self) -> Instruction {
        Instruction::SLPIN
    }

    open spec fn params(&self) -> Seq<u8> {
        Seq::empty()
    }

    fn instruction(&self) -> (instruction: Instruction)
        ensures
            instruction == Instruction::SLPIN,
    {
        Instruction::SLPIN
    }

    /// Writes nothing, whatever the buffer.
    fn fill_params_buf(&self, buffer: &mut [u8]) -> (written: Result<usize, Error>)
        ensures
            written == Ok::<usize, Error>(0usize),
            final(buffer)@ == old(buffer)@,
    {
        Ok(0)
    }
}

/// Turns the panel on.
#[derive(Debug, Clone, Copy, PartialEq, Eq)]
pub struct SetDisplayOn;

impl DcsCommand for SetDisplayOn {
    open spec fn spec_instruction(&self) -> Instruction {
        Instruction::DISPON
    }

    open spec fn params(&self) -> Seq<u8> {
        Seq::empty()
    }

    fn instruction(&self) -> (instruction: Instruction)
        ensures
            instruction == Instruction::DISPON,
    {
        Instruction::DISPON
    }

    /// Writes nothing, whatever the buffer.
    fn fill_params_buf(&self, buffer: &mut [u8]) -> (written: Result<usize, Error>)
        ensures
            written == Ok::<usize, Error>(0usize),
            final(buffer)@ == old(buffer)@,
    {
        Ok(0)
    }
}

/// Switches colour inversion on or off. The state travels in the choice of
/// instruction; there are no parameter bytes.
#[derive(Debug, Clone, Copy, PartialEq, Eq)]
pub struct SetInvertMode(pub ColorInversion);

impl SetInvertMode {
    /// A command that selects `inversion`.
    pub fn new(inversion: ColorInversion) -> (command: Self)
        ensures
            command == SetInvertMode(inversion),
    {
        SetInvertMode(inversion)
    }
}

impl DcsCommand for SetInvertMode {
    open spec fn spec_instruction(&self) -> Instruction {
        match self.0 {
            ColorInversion::Normal => Instruction::INVOFF,
            ColorInversion::Inverted => Instruction::INVON,
        }
    }

    open spec fn params(&self) -> Seq<u8> {
        Seq::empty()
    }

    fn instruction(&self) -> (instruction: Instruction)
        ensures
            self.0 is Normal ==> instruction == Instruction::INVOFF,
            self.0 is Inverted ==> instruction == Instruction::INVON,
    {
        match self.0 {
            ColorInversion::Normal => Instruction::INVOFF,
            ColorInversion::Inverted => Instruction::INVON,
        }
    }

    /// Writes nothing, whatever the buffer.
    fn fill_params_buf(&self, buffer: &mut [u8]) -> (written: Result<usize, Error>)
        ensures
            written == Ok::<usize, Error>(0usize),
            final(buffer)@ == old(buffer)@,
    {
        Ok(0)
    }
}

} // verus!
