//! The logical interrupt sources of the board.

use vstd::prelude::*;

verus! {

/// A peripheral's interrupt identity, whatever controller routes it.
/// `Invalid` stands for a line that no peripheral owns.
#[derive(Clone, Copy, Debug, PartialEq, Eq, Structural)]
pub enum Device {
    Timer0,
    Timer1,
    Timer2,
    Timer3,
    ArmTimer,
    Dma,
    Invalid,
}

} // verus!
