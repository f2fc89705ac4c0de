//! Error kinds that are decided before any byte reaches the bus.
use vstd::prelude::*;

verus! {

/// A request that the codec or the transport description turns down.
#[derive(Debug, Clone, Copy, PartialEq, Eq)]
pub enum Error {
    /// The buffer handed to an encoder (or decoder) is shorter than the
    /// command's parameters.
    BufferTooSmall,
    /// The transport does not offer the capability that was asked for.
    UnsupportedOperation,
}

/// A controller and bus combination that cannot work.
#[derive(Debug, Clone, Copy, PartialEq, Eq)]
pub enum ConfigurationError {
    /// The controller cannot be driven through this kind of bus.
    UnsupportedInterface,
}

/// Why a bring-up ended without a usable display.
#[derive(Debug, PartialEq, Eq)]
pub enum ModelInitError<E> {
    /// The bring-up was turned down before anything was sent.
    InvalidConfiguration(ConfigurationError),
    /// The bus reported `error` while carrying out step number `step`
    /// (counted from zero) of the bring-up.
    Interface { step: usize, error: E },
}

} // verus!
