//! Error kinds reported by the layout rules and the bus driver.

use vstd::prelude::*;

verus! {

/// What can go wrong while building a layout or driving the bus.
#[derive(Clone, Copy, Debug, PartialEq, Eq, Structural)]
pub enum ErrorKind {
    /// A wrap policy was paired with a behavior it does not support.
    InvalidLayoutCombination,
    /// The transport failed to request or drive a pin.
    PinIoError,
}

impl ErrorKind {
    /// A short human-readable description of the error.
    pub fn describe(&self) -> (text: &'static str)
        ensures
            text@ == (match *self {
                ErrorKind::InvalidLayoutCombination => "invalid layout combination"@,
                ErrorKind::PinIoError => "pin I/O error"@,
            }),
    {
        match self {
            ErrorKind::InvalidLayoutCombination => "invalid layout combination",
            ErrorKind::PinIoError => "pin I/O error",
        }
    }
}

} // verus!
