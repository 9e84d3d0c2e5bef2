//! The hardware side of the driver: the bus, the two lines, and the record
//! of every request made to them.
//!
//! This file is the only one that touches the hardware. Each of the four
//! requests of a `Link` makes one call into the hardware abstraction layer
//! and adds one exchange to the record, so the record holds what was asked
//! and how it ended, in order. Nothing is known of a bus or a line but what
//! its call returns.

use embedded_hal::blocking::spi::{Transfer, Write};
use embedded_hal::digital::v2::OutputPin;
use vstd::prelude::*;

use crate::error::Error;
use crate::trace::{asked, Command, Exchange};

verus! {

/// Calls `embedded_hal::blocking::spi::Write::write` with `words` and tells
/// whether it returned `Ok`. Nothing is claimed of the outcome.
#[verifier::external_body]
fn bus_write<B: Write<u8>>(bus: &mut B, words: &[u8]) -> (done: bool) {
    bus.write(words).is_ok()
}

/// Calls `embedded_hal::blocking::spi::Transfer::transfer` on `words` and
/// tells whether it returned `Ok`. The bus overwrites the bytes in place;
/// the only claim is that a slice keeps its length.
#[verifier::external_body]
fn bus_transfer<B: Transfer<u8>>(bus: &mut B, words: &mut [u8]) -> (done: bool)
    ensures
        final(words)@.len() == old(words)@.len(),
{
    bus.transfer(words).is_ok()
}

/// Calls `embedded_hal::digital::v2::OutputPin::set_low` and tells whether
/// it returned `Ok`. Nothing is claimed of the outcome.
#[verifier::external_body]
fn drive_low<P: OutputPin>(pin: &mut P) -> (done: bool) {
    pin.set_low().is_ok()
}

/// Calls `embedded_hal::digital::v2::OutputPin::set_high` and tells whether
/// it returned `Ok`. Nothing is claimed of the outcome.
#[verifier::external_body]
fn drive_high<P: OutputPin>(pin: &mut P) -> (done: bool) {
    pin.set_high().is_ok()
}

/// The bus and the two lines of one chip, with the record of what was
/// asked of them.
pub struct Link<SPI, CSN, CE> {
    spi: SPI,
    csn: CSN,
    ce: CE,
    record: Ghost<Seq<Exchange>>,
}

impl<SPI, CSN, CE> View for Link<SPI, CSN, CE> {
    type V = Seq<Exchange>;

    /// Every request made through this link, in order.
    closed spec fn view(&self) -> Seq<Exchange> {
        self.record@
    }
}

impl<SPI, CSN, CE> Link<SPI, CSN, CE> where
    SPI: Transfer<u8> + Write<u8>,
    CSN: OutputPin,
    CE: OutputPin,
 {
    /// The bus.
    pub closed spec fn bus(&self) -> SPI {
        self.spi
    }

    /// The chip-select line.
    pub closed spec fn select_pin(&self) -> CSN {
        self.csn
    }

    /// The chip-enable line.
    pub closed spec fn enable_pin(&self) -> CE {
        self.ce
    }

    /// Takes the bus and the two lines, with an empty record.
    pub fn new(spi: SPI, csn: CSN, ce: CE) -> (link: Self)
        ensures
            link@ == Seq::<Exchange>::empty(),
            link.bus() == spi,
            link.select_pin() == csn,
            link.enable_pin() == ce,
    {
        Link { spi, csn, ce, record: Ghost(Seq::empty()) }
    }

    /// Lends the bus out for a look at it; nothing can be asked of it
    /// through a shared reference.
    pub fn spi(&self) -> (bus: &SPI)
        ensures
            *bus == self.bus(),
    {
        &self.spi
    }

    /// Gives the bus and the two lines back.
    pub fn release(self) -> (handles: (SPI, CSN, CE))
        ensures
            handles.0 == self.bus(),
            handles.1 == self.select_pin(),
            handles.2 == self.enable_pin(),
    {
        (self.spi, self.csn, self.ce)
    }

    /// Drives the chip-select line high or low.
    pub fn select(&mut self, high: bool) -> (r: Result<(), Error>)
        ensures
            final(self)@ == asked(old(self)@, Command::ChipSelect(high), r is Ok, Seq::empty()),
            r matches Err(e) ==> e == Error::Gpio,
            final(self).bus() == old(self).bus(),
            final(self).enable_pin() == old(self).enable_pin(),
    {
        let done = if high {
            drive_high(&mut self.csn)
        } else {
            drive_low(&mut self.csn)
        };
        proof {
            self.record@ = asked(self.record@, Command::ChipSelect(high), done, Seq::empty());
        }
        if done {
            Ok(())
        } else {
            Err(Error::Gpio)
        }
    }

    /// Drives the chip-enable line high or low.
    pub fn enable(&mut self, high: bool) -> (r: Result<(), Error>)
        ensures
            final(self)@ == asked(old(self)@, Command::ChipEnable(high), r is Ok, Seq::empty()),
            r matches Err(e) ==> e == Error::Gpio,
            final(self).bus() == old(self).bus(),
            final(self).select_pin() == old(self).select_pin(),
    {
        let done = if high {
            drive_high(&mut self.ce)
        } else {
            drive_low(&mut self.ce)
        };
        proof {
            self.record@ = asked(self.record@, Command::ChipEnable(high), done, Seq::empty());
        }
        if done {
            Ok(())
        } else {
            Err(Error::Gpio)
        }
    }

    /// Writes `words` to the bus.
    pub fn write(&mut self, words: &[u8]) -> (r: Result<(), Error>)
        ensures
            final(self)@ == asked(old(self)@, Command::Write(words@), r is Ok, Seq::empty()),
            r matches Err(e) ==> e == Error::Spi,
            final(self).select_pin() == old(self).select_pin(),
            final(self).enable_pin() == old(self).enable_pin(),
    {
        let done = bus_write(&mut self.spi, words);
        proof {
            self.record@ = asked(self.record@, Command::Write(words@), done, Seq::empty());
        }
        if done {
            Ok(())
        } else {
            Err(Error::Spi)
        }
    }

    /// Clocks `words` out on the bus and reads as many bytes back into
    /// them. The reply on record is what `words` holds afterwards.
    pub fn transfer(&mut self, words: &mut [u8]) -> (r: Result<(), Error>)
        ensures
            final(words)@.len() == old(words)@.len(),
            final(self)@ == asked(
                old(self)@,
                Command::Transfer(old(words)@),
                r is Ok,
                final(words)@,
            ),
            r matches Err(e) ==> e == Error::Spi,
            final(self).select_pin() == old(self).select_pin(),
            final(self).enable_pin() == old(self).enable_pin(),
    {
        let ghost sent = words@;
        let done = bus_transfer(&mut self.spi, words);
        proof {
            self.record@ = asked(self.record@, Command::Transfer(sent), done, words@);
        }
        if done {
            Ok(())
        } else {
            Err(Error::Spi)
        }
    }
}

} // verus!
