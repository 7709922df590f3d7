//! Character-matrix display support for HD44780-compatible controllers on a
//! 4-bit parallel bus.
//!
//! The crate is split into the line layout and scrolling rules (`layout`,
//! `scroll`), the frame buffer that turns four lines into display operations
//! (`layout::Buffer`), and the bus protocol that turns bytes into timed pin
//! operations (`bus`). Everything here is pure: callers perform the returned
//! operations on real hardware.

use vstd::prelude::*;

pub mod bus;
pub mod cycles;
pub mod error;
pub mod layout;
pub mod scroll;

verus! {

/// GPIO line numbers of the seven controller pins that the bus uses.
#[derive(Clone, Copy, Debug, PartialEq, Eq, Structural)]
pub struct PinMap {
    pub rs: u32,
    pub rw: u32,
    pub en: u32,
    pub d4: u32,
    pub d5: u32,
    pub d6: u32,
    pub d7: u32,
}

} // verus!
