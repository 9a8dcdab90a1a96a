//! Type-level tags of pin handles and the capabilities of refresh-mode pins.
//!
//! A pin handle carries its direction (`Input` or `Output`) and its access
//! protocol (`RegularAccessMode` or `RefreshMode`) in its type, so that an
//! output operation on an input pin does not compile.
use vstd::prelude::*;

verus! {

/// How a pin handle keeps its state.
///
/// * Regular: each query or update is one bus transaction, made at once.
/// * Refresh: queries and updates act on the cached registers; the bank is
///   refreshed or updated explicitly, for all its pins at once.
pub trait AccessMode {}

/// Each query or update of the pin is a bus transaction, made at once.
pub struct RegularAccessMode {}

impl AccessMode for RegularAccessMode {}

/// Queries and updates act on the cached registers, which are refreshed or
/// written explicitly.
pub struct RefreshMode {}

impl AccessMode for RefreshMode {}

/// The direction of a pin handle.
pub trait PinMode {}

/// Input direction.
pub struct Input {}

impl PinMode for Input {}

/// Output direction.
pub struct Output {}

impl PinMode for Output {}

/// A refresh-mode pin in output mode.
pub trait RefreshableOutputPin {
    type Error;

    /// Writes the output byte of the pin's bank.
    fn update_bank(&self) -> Result<(), Self::Error>;

    /// Writes the output bytes of both banks, Bank0 first; stops at the first error.
    fn update_all(&self) -> Result<(), Self::Error>;
}

/// A refresh-mode pin in input mode.
pub trait RefreshableInputPin {
    type Error;

    /// Refreshes the input register of the pin's bank.
    fn refresh_bank(&self) -> Result<(), Self::Error>;

    /// Refreshes the input registers of both banks, Bank0 first; stops at the first error.
    fn refresh_all(&self) -> Result<(), Self::Error>;
}

} // verus!
