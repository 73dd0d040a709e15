//! SoC Regulators

pub mod consumer;
pub mod driver;

use crate::error::Error;
use vstd::prelude::*;

verus! {

/// Regulator operating modes
#[derive(Clone, Copy, Debug, PartialEq, Eq, Structural)]
pub enum Mode {
    /// Invalid mode
    Invalid,
    /// Regulator can handle fast changes in it's load
    Fast,
    /// Normal regulator power supply mode
    Normal,
    /// Regulator runs in a more efficient mode for light loads
    Idle,
    /// Regulator runs in the most efficient mode for very light loads
    Standby,
}

impl Mode {
    /// The number that stands for the mode at a C boundary.
    pub open spec fn spec_to_bindings(self) -> u32 {
        match self {
            Mode::Invalid => 0x0,
            Mode::Fast => 0x1,
            Mode::Normal => 0x2,
            Mode::Idle => 0x4,
            Mode::Standby => 0x8,
        }
    }

    /// The number that stands for the mode at a C boundary.
    pub fn to_bindings(self) -> (mode: u32)
        ensures
            mode == self.spec_to_bindings(),
    {
        match self {
            Mode::Invalid => 0x0,
            Mode::Fast => 0x1,
            Mode::Normal => 0x2,
            Mode::Idle => 0x4,
            Mode::Standby => 0x8,
        }
    }

    /// The mode that the number `mode` stands for; a number that stands for
    /// none is an invalid argument.
    pub fn from_bindings(mode: u32) -> (result: Result<Mode, Error>)
        ensures
            result matches Ok(m) ==> m.spec_to_bindings() == mode,
            result matches Err(e) ==> e == Error::InvalidArgument && forall|m: Mode|
                #[trigger] m.spec_to_bindings() != mode,
    {
        match mode {
            0x1 => Ok(Mode::Fast),
            0x2 => Ok(Mode::Normal),
            0x4 => Ok(Mode::Idle),
            0x8 => Ok(Mode::Standby),
            0x0 => Ok(Mode::Invalid),
            _ => Err(Error::InvalidArgument),
        }
    }
}

} // verus!
