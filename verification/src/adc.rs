//! The inputs of the analog-to-digital converter.

use vstd::prelude::*;

verus! {

/// One input of the converter: a key is sampled from one of them.
#[derive(Clone, Copy, Debug, PartialEq, Eq, Structural)]
pub enum Pin {
    /// The input on pin 26.
    P26,
    /// The input on pin 27.
    P27,
    /// The input on pin 28.
    P28,
    /// The temperature sensor of the chip.
    TempSensor,
}

} // verus!
