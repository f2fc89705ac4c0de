//! What reaches the bus: one instruction byte followed by parameter bytes.
//!
//! A [`Frame`] is built either from a typed command, through the codec, or
//! from a raw instruction and payload, past the codec. How a frame is
//! clocked out over a given kind of bus is the business of the bus driver.
use crate::dcs::DcsCommand;
use crate::error::Error;
use vstd::prelude::*;
use vstd::slice::slice_subrange;

verus! {

/// The number of parameter bytes that a frame has room for when it encodes
/// a typed command.
pub const PARAMS_CAPACITY: usize = 16;

/// The kinds of bus that a controller can hang on. A kind is a tag for
/// compatibility checks, not a connection.
#[derive(Debug, Clone, Copy, PartialEq, Eq)]
pub enum InterfaceKind {
    /// Serial, with the data/command bit sent in band.
    Serial3Line,
    /// Serial, with a data/command line.
    Serial4Line,
    /// Parallel, eight data lines.
    Parallel8Bit,
    /// Parallel, sixteen data lines.
    Parallel16Bit,
}

/// What a transport offers, known without any I/O.
#[derive(Debug, Clone, Copy, PartialEq, Eq)]
pub struct Capabilities {
    /// The kind of bus.
    pub kind: InterfaceKind,
    /// Whether register values can be read back over it.
    pub read_back: bool,
}

/// A read of `len` bytes from the register that `instruction` selects.
#[derive(Debug, Clone, Copy, PartialEq, Eq)]
pub struct ReadRequest {
    pub instruction: u8,
    pub len: usize,
}

impl Capabilities {
    /// The read of `len` bytes that `instruction` starts, where the transport
    /// can read back; `UnsupportedOperation` where it is write-only.
    pub fn read(&self, instruction: u8, len: usize) -> (request: Result<ReadRequest, Error>)
        ensures
            self.read_back ==> request == Ok::<ReadRequest, Error>(
                (ReadRequest { instruction, len }),
            ),
            !self.read_back ==> request == Err::<ReadRequest, Error>(Error::UnsupportedOperation),
    {
        if self.read_back {
            Ok(ReadRequest { instruction, len })
        } else {
            Err(Error::UnsupportedOperation)
        }
    }
}

/// Where the parameter bytes of a frame are kept.
#[derive(Debug, Clone, Copy)]
enum Params<'a> {
    /// In the frame itself, as the encoder of a typed command wrote them:
    /// the first `len` bytes of `bytes`.
    Encoded { bytes: [u8; PARAMS_CAPACITY], len: usize },
    /// Where the caller has them.
    Raw(&'a [u8]),
}

/// One instruction byte and its parameter bytes, ready to be sent.
///
/// A frame is built from a typed command, whose parameters the codec
/// writes into the frame, or from a raw instruction and payload, which
/// the frame hands on untouched.
#[derive(Debug, Clone, Copy)]
pub struct Frame<'a> {
    instruction: u8,
    params: Params<'a>,
}

impl<'a> Frame<'a> {
    /// Encoded parameters lie within the frame's buffer.
    #[verifier::type_invariant]
    spec fn well_formed(&self) -> bool {
        match self.params {
            Params::Encoded { bytes, len } => len <= PARAMS_CAPACITY,
            Params::Raw(_) => true,
        }
    }

    /// The instruction byte.
    pub closed spec fn spec_instruction(&self) -> u8 {
        self.instruction
    }

    /// The parameter bytes, in wire order.
    pub closed spec fn payload(&self) -> Seq<u8> {
        match self.params {
            Params::Encoded { bytes, len } => bytes@.subrange(0, len as int),
            Params::Raw(payload) => payload@,
        }
    }

    /// The frame of a typed command: its instruction's byte and the
    /// parameter bytes that its encoder writes. A command with more than
    /// [`PARAMS_CAPACITY`] parameter bytes is turned down.
    pub fn command<C: DcsCommand>(command: &C) -> (frame: Result<Frame<'a>, Error>)
        ensures
            frame is Ok <==> command.params().len() <= PARAMS_CAPACITY,
            frame is Err ==> frame == Err::<Frame<'a>, Error>(Error::BufferTooSmall),
            frame matches Ok(f) ==> f.spec_instruction() == command.spec_instruction().spec_opcode()
                && f.payload() == command.params(),
    {
        let mut bytes = [0u8;PARAMS_CAPACITY];
        match command.fill_params_buf(&mut bytes) {
            Ok(len) => Ok(
                Frame {
                    instruction: command.instruction().opcode(),
                    params: Params::Encoded { bytes, len },
                },
            ),
            Err(error) => Err(error),
        }
    }

    /// The frame of a raw write: `instruction` and `payload` as they are,
    /// whatever they hold and however long the payload is.
    pub fn raw(instruction: u8, payload: &'a [u8]) -> (frame: Frame<'a>)
        ensures
            frame.spec_instruction() == instruction,
            frame.payload() == payload@,
    {
        Frame { instruction, params: Params::Raw(payload) }
    }

    /// The instruction byte.
    pub fn instruction(&self) -> (instruction: u8)
        ensures
            instruction == self.spec_instruction(),
    {
        self.instruction
    }

    /// The parameter bytes, in wire order.
    pub fn params(&self) -> (params: &[u8])
        ensures
            params@ == self.payload(),
    {
        proof {
            use_type_invariant(self);
        }
        match &self.params {
            Params::Encoded { bytes, len } => slice_subrange(bytes.as_slice(), 0, *len),
            Params::Raw(payload) => payload,
        }
    }
}

} // verus!
