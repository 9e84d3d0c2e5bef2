//! The bus mode that the chip speaks.

use vstd::prelude::*;

verus! {

/// `embedded_hal::spi::Polarity`: the level of the clock line when idle.
#[verifier::external_type_specification]
pub struct ExPolarity(embedded_hal::spi::Polarity);

/// `embedded_hal::spi::Phase`: the clock transition on which data is
/// captured.
#[verifier::external_type_specification]
pub struct ExPhase(embedded_hal::spi::Phase);

/// `embedded_hal::spi::Mode`: a polarity and a phase.
#[verifier::external_type_specification]
pub struct ExMode(embedded_hal::spi::Mode);

/// The mode to set the bus to: data is captured on the first transition of
/// a clock that idles low.
pub fn mode() -> (mode: embedded_hal::spi::Mode)
    ensures
        mode.phase == embedded_hal::spi::Phase::CaptureOnFirstTransition,
        mode.polarity == embedded_hal::spi::Polarity::IdleLow,
{
    embedded_hal::spi::Mode {
        phase: embedded_hal::spi::Phase::CaptureOnFirstTransition,
        polarity: embedded_hal::spi::Polarity::IdleLow,
    }
}

} // verus!
