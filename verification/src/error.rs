//! What can go wrong between the driver and the hardware.

use vstd::prelude::*;

use crate::trace::Command;

verus! {

/// Error
#[derive(Debug, Clone, Copy, PartialEq, Eq, Structural)]
pub enum Error {
    /// Late collision. No operation of the driver reports it; it is kept for
    /// the layers above.
    LateCollision,
    /// The bus reported a failed write or transfer. The error value of the
    /// bus itself is not kept.
    Spi,
    /// One of the two lines could not be driven.
    Gpio,
}

/// The error that a failure of `command` is reported as.
pub open spec fn fault_of(command: Command) -> Error {
    match command {
        Command::ChipSelect(_) => Error::Gpio,
        Command::ChipEnable(_) => Error::Gpio,
        Command::Write(_) => Error::Spi,
        Command::Transfer(_) => Error::Spi,
    }
}

} // verus!
