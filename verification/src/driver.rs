//! The transceiver driver: its operations, and the steps they are made of.

use embedded_hal::blocking::spi::{Transfer, Write};
use embedded_hal::digital::v2::OutputPin;
use vstd::prelude::*;

use crate::bit;
use crate::error::Error;
use crate::instruction;
use crate::link::Link;
use crate::memory;
use crate::model::{
    data_ready_ran, get_data_ran, is_sending_ran, performed, send_ran, settle_ran, status_read,
    Model,
};
use crate::protocol;
use crate::protocol::MIRF_CONFIG;
use crate::status;
use crate::trace::{
    asked, byte_since, completed, lemma_in_sequence, lemma_ran_after, ran, reply_since,
    transferred, Command,
};

verus! {

/// The driver of one transceiver: it owns the bus and the two lines, and
/// keeps the channel, the payload length and whether a packet is in flight.
pub struct NRF24L01<SPI, CSN, CE> {
    link: Link<SPI, CSN, CE>,
    channel: u8,
    payload_size: u8,
    tx_power_status: bool,
}

impl<SPI, CSN, CE> View for NRF24L01<SPI, CSN, CE> {
    type V = Model;

    closed spec fn view(&self) -> Model {
        Model {
            channel: self.channel,
            payload_size: self.payload_size,
            transmitting: self.tx_power_status,
            trace: self.link@,
        }
    }
}

impl<SPI, CSN, CE> NRF24L01<SPI, CSN, CE> where
    SPI: Transfer<u8> + Write<u8>,
    CSN: OutputPin,
    CE: OutputPin,
 {
    /// The bus that the driver holds.
    pub closed spec fn bus(&self) -> SPI {
        self.link.bus()
    }

    /// The chip-select line that the driver holds.
    pub closed spec fn select_pin(&self) -> CSN {
        self.link.select_pin()
    }

    /// The chip-enable line that the driver holds.
    pub closed spec fn enable_pin(&self) -> CE {
        self.link.enable_pin()
    }

    /// Makes a driver for the chip behind `spi`, `csn` and `ce`, for RF
    /// channel `channel` (0 to 125) and payloads of `payload_size` bytes (0
    /// for the chip's dynamic payload length). Both lines are brought to
    /// rest, chip-enable low and chip-select high; the chip's registers are
    /// not touched before `config`.
    pub fn new(spi: SPI, csn: CSN, ce: CE, channel: u8, payload_size: u8) -> (r: Result<
        Self,
        Error,
    >)
        ensures
            match r {
                Ok(driver) => {
                    &&& driver@.channel == channel
                    &&& driver@.payload_size == payload_size
                    &&& !driver@.transmitting
                    &&& completed(protocol::startup(), Seq::empty(), driver@.trace)
                    &&& driver@.select_line() == Some(true)
                    &&& driver@.enable_line() == Some(false)
                    &&& driver.bus() == spi
                },
                Err(e) => e == Error::Gpio,
            },
    {
        let mut nrf24l01 = NRF24L01 {
            link: Link::new(spi, csn, ce),
            channel,
            payload_size,
            tx_power_status: false,
        };
        nrf24l01.park()?;
        Ok(nrf24l01)
    }

    /// Brings both lines to rest: chip-enable low, then chip-select high.
    /// Nothing is asked of the bus. `new` does this once for every driver.
    pub fn park(&mut self) -> (r: Result<(), Error>)
        ensures
            performed(old(self)@, final(self)@, protocol::startup(), r),
            final(self)@.transmitting == old(self)@.transmitting,
            r is Ok ==> final(self)@.select_line() == Some(true),
            r is Ok ==> final(self)@.enable_line() == Some(false),
            final(self)@.select_low() ==> old(self)@.select_low(),
            final(self).bus() == old(self).bus(),
    {
        self.enable(false)?;
        self.select(true)?;
        Ok(())
    }

    /// Sets the radio up for use: writes the channel; switches the chip's
    /// dynamic payload length on for pipes 0 and 1 where the payload length
    /// is 0, else writes the payload length as the width of both pipes;
    /// powers up into receive mode and empties the receive FIFO. It may be
    /// called again at any time, with the same effect. Where a step fails,
    /// nothing is undone; only the frame that the bus failed in is closed.
    pub fn config(&mut self) -> (r: Result<(), Error>)
        ensures
            performed(
                old(self)@,
                final(self)@,
                protocol::config(old(self)@.channel, old(self)@.payload_size),
                r,
            ),
            final(self)@.transmitting == (old(self)@.transmitting && final(self)@.trace.len()
                <= old(self)@.trace.len() + 12),
            r is Ok ==> final(self)@.select_line() == Some(true),
            r is Ok ==> final(self)@.enable_line() == Some(true),
            final(self)@.select_low() ==> old(self)@.select_low(),
    {
        let channel = self.channel;
        let payload_size = self.payload_size;
        proof {
            let tune = protocol::register_write(memory::RF_CH, seq![channel]);
            let setup = protocol::payload_setup(payload_size);
            lemma_in_sequence(tune, setup);
            lemma_in_sequence(tune + setup, protocol::power_up_rx());
            lemma_in_sequence(
                tune + setup + protocol::power_up_rx(),
                protocol::bare_instruction(instruction::FLUSH_RX),
            );
        }
        self.config_register(memory::RF_CH, channel)?;
        self.setup_payload()?;
        self.power_up_rx()?;
        self.flush_rx()?;
        Ok(())
    }

    /// Powers the chip down: chip-enable goes low and the configuration
    /// register back to its base value. `config` brings the radio back.
    pub fn power_down(&mut self) -> (r: Result<(), Error>)
        ensures
            performed(old(self)@, final(self)@, protocol::power_down(), r),
            final(self)@.transmitting == old(self)@.transmitting,
            r is Ok ==> final(self)@.select_line() == Some(true),
            r is Ok ==> final(self)@.enable_line() == Some(false),
            final(self)@.select_low() ==> old(self)@.select_low(),
    {
        proof {
            lemma_in_sequence(
                seq![Command::ChipEnable(false)],
                protocol::register_write(memory::CONFIG, seq![MIRF_CONFIG]),
            );
        }
        self.enable(false)?;
        self.config_register(memory::CONFIG, MIRF_CONFIG)?;
        Ok(())
    }

    /// Lends the bus out for a look at it. The driver keeps it: nothing can
    /// be asked of a bus through a shared reference.
    pub fn spi(&self) -> (bus: &SPI)
        ensures
            *bus == self.bus(),
    {
        self.link.spi()
    }

    /// Gives the bus and the two lines back; the driver is gone.
    pub fn free(self) -> (handles: (SPI, CSN, CE))
        ensures
            handles.0 == self.bus(),
            handles.1 == self.select_pin(),
            handles.2 == self.enable_pin(),
    {
        self.link.release()
    }

    /// Sets the address that the radio listens on (pipe 1). The register
    /// must not change while the radio listens, so chip-enable is low
    /// around the write and high after it.
    pub fn set_raddr(&mut self, addr: &[u8]) -> (r: Result<(), Error>)
        ensures
            performed(old(self)@, final(self)@, protocol::set_raddr(addr@), r),
            final(self)@.transmitting == old(self)@.transmitting,
            r is Ok ==> final(self)@.select_line() == Some(true),
            r is Ok ==> final(self)@.enable_line() == Some(true),
            final(self)@.select_low() ==> old(self)@.select_low(),
    {
        proof {
            let low = seq![Command::ChipEnable(false)];
            let write = protocol::register_write(memory::RX_ADDR_P1, addr@);
            lemma_in_sequence(low, write);
            lemma_in_sequence(low + write, seq![Command::ChipEnable(true)]);
        }
        self.enable(false)?;
        self.write_register(memory::RX_ADDR_P1, addr)?;
        self.enable(true)?;
        Ok(())
    }

    /// Sets the address that packets are sent to: pipe 0 listens on it, so
    /// that the acknowledgements arrive, and the transmit address is set to
    /// it. The chip-enable line is not touched.
    pub fn set_taddr(&mut self, addr: &[u8]) -> (r: Result<(), Error>)
        ensures
            performed(old(self)@, final(self)@, protocol::set_taddr(addr@), r),
            final(self)@.transmitting == old(self)@.transmitting,
            r is Ok ==> final(self)@.select_line() == Some(true),
            final(self)@.enable_line() == old(self)@.enable_line(),
            final(self)@.select_low() ==> old(self)@.select_low(),
    {
        proof {
            lemma_in_sequence(
                protocol::register_write(memory::RX_ADDR_P0, addr@),
                protocol::register_write(memory::TX_ADDR, addr@),
            );
        }
        self.write_register(memory::RX_ADDR_P0, addr)?;
        self.write_register(memory::TX_ADDR, addr)?;
        Ok(())
    }

    /// Reads the status register.
    pub fn get_status(&mut self) -> (r: Result<u8, Error>)
        ensures
            performed(old(self)@, final(self)@, protocol::register_read(memory::STATUS), r),
            r matches Ok(status) ==> status == byte_since(old(self)@.trace, final(self)@.trace, 2),
            final(self)@.transmitting == old(self)@.transmitting,
            r is Ok ==> final(self)@.select_line() == Some(true),
            final(self)@.enable_line() == old(self)@.enable_line(),
            final(self)@.select_low() ==> old(self)@.select_low(),
    {
        let response = self.read_register(memory::STATUS)?;
        Ok(response)
    }

    /// Hands `data` to the radio for transmission. `data` must be as long
    /// as the payload length of the driver, or, with the dynamic payload
    /// length, fit the chip's FIFO; the driver does not look at it.
    ///
    /// The status is read once first. While the packet of an earlier `send`
    /// is in flight, the status is then read until it reports that packet
    /// sent or given up, at most `max_polls` times. If the packet is still
    /// in flight after that, nothing is handed over and the answer is
    /// `false`: the caller may call again. Else the radio goes to transmit
    /// mode with an empty transmit FIFO, takes the payload and starts
    /// sending, and the answer is `true`. `send` does not wait for the new
    /// packet to settle: `is_sending` tells.
    pub fn send(&mut self, data: &[u8], max_polls: u32) -> (r: Result<bool, Error>)
        ensures
            exists|polls: nat| #[trigger]
                send_ran(old(self)@, final(self)@, data@, max_polls as nat, polls, r),
            r is Ok ==> final(self)@.transmitting,
            r is Ok ==> final(self)@.select_line() == Some(true),
            r == Ok::<bool, Error>(true) ==> final(self)@.enable_line() == Some(true),
            r == Ok::<bool, Error>(false) ==> final(self)@.enable_line()
                == old(self)@.enable_line(),
            final(self)@.select_low() ==> old(self)@.select_low(),
    {
        let ghost before = self@;
        let first = self.get_status();
        if let Err(e) = first {
            proof {
                lemma_in_sequence(
                    protocol::register_read(memory::STATUS),
                    protocol::status_reads(0),
                );
                lemma_in_sequence(
                    protocol::register_read(memory::STATUS) + protocol::status_reads(0),
                    protocol::transmit(data@),
                );
                assert(send_ran(before, self@, data@, max_polls as nat, 0, Err::<bool, Error>(e)));
            }
            return Err(e);
        }
        let ghost read = self@;
        let (waited, polls) = self.settle(max_polls);
        let ghost settled = self@;
        proof {
            protocol::lemma_status_reads_len(polls as nat);
            lemma_in_sequence(
                protocol::register_read(memory::STATUS),
                protocol::status_reads(polls as nat),
            );
            lemma_in_sequence(
                protocol::register_read(memory::STATUS) + protocol::status_reads(polls as nat),
                protocol::transmit(data@),
            );
            assert forall|i: int| 1 <= i <= polls implies #[trigger] status_read(
                before.trace,
                settled.trace,
                i,
            ) == status_read(read.trace, settled.trace, i - 1) by {}
        }
        if let Err(e) = waited {
            proof {
                assert(send_ran(
                    before,
                    self@,
                    data@,
                    max_polls as nat,
                    polls as nat,
                    Err::<bool, Error>(e),
                ));
            }
            return Err(e);
        }
        if self.tx_power_status {
            proof {
                assert(send_ran(
                    before,
                    self@,
                    data@,
                    max_polls as nat,
                    polls as nat,
                    Ok::<bool, Error>(false),
                ));
            }
            return Ok(false);
        }
        let handed = self.transmit(data);
        proof {
            assert forall|i: int| 1 <= i <= polls implies #[trigger] status_read(
                before.trace,
                self@.trace,
                i,
            ) == status_read(before.trace, settled.trace, i) by {
                assert(self@.trace[before.trace.len() + 4 * i + 2]
                    == settled.trace[before.trace.len() + 4 * i + 2]);
            }
        }
        match handed {
            Err(e) => {
                proof {
                    assert(send_ran(
                        before,
                        self@,
                        data@,
                        max_polls as nat,
                        polls as nat,
                        Err::<bool, Error>(e),
                    ));
                }
                Err(e)
            },
            Ok(()) => {
                proof {
                    assert(send_ran(
                        before,
                        self@,
                        data@,
                        max_polls as nat,
                        polls as nat,
                        Ok::<bool, Error>(true),
                    ));
                }
                Ok(true)
            },
        }
    }

    /// Looks once whether the packet handed over by `send` is still in
    /// flight. Where none is, nothing is asked of the chip. Else the status
    /// is read: if it reports the packet sent or given up, the radio goes
    /// back to receive mode and the answer is `false` (which of the two it
    /// was, the status byte would tell); if not, the answer is `true`.
    pub fn is_sending(&mut self) -> (r: Result<bool, Error>)
        ensures
            is_sending_ran(old(self)@, final(self)@, r),
            r is Ok && old(self)@.select_line() == Some(true) ==> final(self)@.select_line()
                == Some(true),
            r == Ok::<bool, Error>(true) ==> final(self)@.enable_line() == old(self)@.enable_line(),
            r == Ok::<bool, Error>(false) && old(self)@.transmitting ==> final(self)@.enable_line()
                == Some(true),
            final(self)@.select_low() ==> old(self)@.select_low(),
    {
        if self.tx_power_status {
            proof {
                lemma_in_sequence(
                    protocol::register_read(memory::STATUS),
                    protocol::power_up_rx(),
                );
            }
            let status = self.get_status()?;
            if status::transmission_settled(status) {
                self.power_up_rx()?;
                return Ok(false);
            }
            return Ok(true);
        }
        Ok(false)
    }

    /// Tells whether a received payload waits in the chip: the status
    /// reports one, or, where it does not, the receive FIFO is not empty (a
    /// payload may wait there after the flag was cleared).
    pub fn data_ready(&mut self) -> (r: Result<bool, Error>)
        ensures
            data_ready_ran(old(self)@, final(self)@, r),
            final(self)@.transmitting == old(self)@.transmitting,
            r is Ok ==> final(self)@.select_line() == Some(true),
            final(self)@.enable_line() == old(self)@.enable_line(),
            final(self)@.select_low() ==> old(self)@.select_low(),
    {
        proof {
            lemma_in_sequence(
                protocol::register_read(memory::STATUS),
                protocol::register_read(memory::FIFO_STATUS),
            );
        }
        let status = self.get_status()?;
        if status::data_received(status) {
            return Ok(true);
        }
        let fifo_empty = self.rx_fifo_empty()?;
        Ok(!fifo_empty)
    }

    /// Reads the payload at the head of the chip's receive FIFO into the
    /// front of `buf` and tells how many bytes it has. The length is the
    /// payload length of the driver; with the dynamic payload length the
    /// chip is asked for it first. Reading acknowledges the payload: the
    /// data-ready flag of the status is cleared. Where `buf` is shorter
    /// than the payload, nothing is read and the answer is `None`.
    pub fn get_data(&mut self, buf: &mut [u8]) -> (r: Result<Option<u8>, Error>)
        ensures
            get_data_ran(old(self)@, final(self)@, old(buf)@, final(buf)@, r),
            final(self)@.transmitting == old(self)@.transmitting,
            r is Ok && old(self)@.select_line() == Some(true) ==> final(self)@.select_line()
                == Some(true),
            final(self)@.enable_line() == old(self)@.enable_line(),
            final(self)@.select_low() ==> old(self)@.select_low(),
    {
        let ghost held = buf@;
        let mut payload_length = self.payload_size;
        if self.using_dynamic_payload() {
            payload_length = self.frame_read(instruction::R_RX_PL_WID)?;
            proof {
                lemma_in_sequence(
                    protocol::payload_width(),
                    protocol::payload_read(held.take(payload_length as int)),
                );
            }
        }
        if payload_length as usize > buf.len() {
            return Ok(None);
        }
        let ghost asked = self@;
        let read = self.read_payload(buf, payload_length);
        proof {
            assert(buf@ =~= buf@.take(payload_length as int) + buf@.skip(payload_length as int));
            assert(reply_since(asked.trace, self@.trace, 2) == reply_since(
                old(self)@.trace,
                self@.trace,
                asked.trace.len() - old(self)@.trace.len() + 2,
            ));
        }
        match read {
            Ok(()) => Ok(Some(payload_length)),
            Err(e) => Err(e),
        }
    }
}

/// The steps that the operations are made of: a request to a line, or one
/// frame on the bus. A frame that the bus fails in is closed before the
/// error is returned, so that chip-select is not left low.
impl<SPI, CSN, CE> NRF24L01<SPI, CSN, CE> where
    SPI: Transfer<u8> + Write<u8>,
    CSN: OutputPin,
    CE: OutputPin,
 {
    /// Writes one byte to a register, in one frame.
    pub fn config_register(&mut self, register: u8, value: u8) -> (r: Result<(), Error>)
        ensures
            performed(old(self)@, final(self)@, protocol::register_write(register, seq![value]), r),
            final(self)@.transmitting == old(self)@.transmitting,
            final(self)@.select_line() == (if final(self)@.trace.last().done {
                Some(true)
            } else {
                None
            }),
            final(self)@.enable_line() == old(self)@.enable_line(),
    {
        let words = [value];
        assert(words@ =~= seq![value]);
        self.frame_write(instruction::W_REGISTER | (instruction::REGISTER_MASK & register), &words)
    }

    /// Reads one byte from a register, in one frame.
    pub fn read_register(&mut self, register: u8) -> (r: Result<u8, Error>)
        ensures
            performed(old(self)@, final(self)@, protocol::register_read(register), r),
            r matches Ok(value) ==> value == byte_since(old(self)@.trace, final(self)@.trace, 2),
            final(self)@.transmitting == old(self)@.transmitting,
            final(self)@.select_line() == (if final(self)@.trace.last().done {
                Some(true)
            } else {
                None
            }),
            final(self)@.enable_line() == old(self)@.enable_line(),
    {
        self.frame_read(instruction::R_REGISTER | (instruction::REGISTER_MASK & register))
    }

    /// Writes a value of any length to a register, in one frame.
    pub fn write_register(&mut self, register: u8, value: &[u8]) -> (r: Result<(), Error>)
        ensures
            performed(old(self)@, final(self)@, protocol::register_write(register, value@), r),
            final(self)@.transmitting == old(self)@.transmitting,
            final(self)@.select_line() == (if final(self)@.trace.last().done {
                Some(true)
            } else {
                None
            }),
            final(self)@.enable_line() == old(self)@.enable_line(),
    {
        self.frame_write(instruction::W_REGISTER | (instruction::REGISTER_MASK & register), value)
    }

    /// Powers the chip up as a receiver and starts listening. The packet in
    /// flight, if any, counts as settled from here on.
    pub fn power_up_rx(&mut self) -> (r: Result<(), Error>)
        ensures
            performed(old(self)@, final(self)@, protocol::power_up_rx(), r),
            !final(self)@.transmitting,
            r is Ok ==> final(self)@.select_line() == Some(true),
            final(self)@.select_low() ==> old(self)@.select_low(),
            r is Ok ==> final(self)@.enable_line() == Some(true),
    {
        proof {
            let low = seq![Command::ChipEnable(false)];
            let configure = protocol::register_write(
                memory::CONFIG,
                seq![protocol::receive_config()],
            );
            let high = seq![Command::ChipEnable(true)];
            let clear = protocol::register_write(memory::STATUS, seq![protocol::transmit_flags()]);
            lemma_in_sequence(low, configure);
            lemma_in_sequence(low + configure, high);
            lemma_in_sequence(low + configure + high, clear);
        }
        self.tx_power_status = false;
        self.enable(false)?;
        self.config_register(
            memory::CONFIG,
            MIRF_CONFIG | ((1 << bit::PWR_UP) | (1 << bit::PRIM_RX)),
        )?;
        self.enable(true)?;
        self.config_register(memory::STATUS, (1 << bit::TX_DS) | (1 << bit::MAX_RT))?;
        Ok(())
    }

    /// Drives the chip-select line, through the link.
    fn select(&mut self, high: bool) -> (r: Result<(), Error>)
        ensures
            final(self)@ == old(self)@.with_trace(
                asked(old(self)@.trace, Command::ChipSelect(high), r is Ok, Seq::empty()),
            ),
            ran(seq![Command::ChipSelect(high)], old(self)@.trace, final(self)@.trace, r is Ok),
            r matches Err(e) ==> e == Error::Gpio,
            final(self)@.select_line() == (if r is Ok { Some(high) } else { None }),
            final(self)@.enable_line() == old(self)@.enable_line(),
            final(self).bus() == old(self).bus(),
    {
        let r = self.link.select(high);
        assert(self@.trace.drop_last() =~= old(self)@.trace);
        r
    }

    /// Drives the chip-enable line, through the link.
    fn enable(&mut self, high: bool) -> (r: Result<(), Error>)
        ensures
            final(self)@ == old(self)@.with_trace(
                asked(old(self)@.trace, Command::ChipEnable(high), r is Ok, Seq::empty()),
            ),
            ran(seq![Command::ChipEnable(high)], old(self)@.trace, final(self)@.trace, r is Ok),
            r matches Err(e) ==> e == Error::Gpio,
            final(self)@.enable_line() == (if r is Ok { Some(high) } else { None }),
            final(self)@.select_line() == old(self)@.select_line(),
            final(self).bus() == old(self).bus(),
    {
        let r = self.link.enable(high);
        assert(self@.trace.drop_last() =~= old(self)@.trace);
        r
    }

    /// Writes `words` to the bus, through the link.
    fn write(&mut self, words: &[u8]) -> (r: Result<(), Error>)
        ensures
            final(self)@ == old(self)@.with_trace(
                asked(old(self)@.trace, Command::Write(words@), r is Ok, Seq::empty()),
            ),
            r matches Err(e) ==> e == Error::Spi,
            final(self)@.select_line() == old(self)@.select_line(),
            final(self)@.enable_line() == old(self)@.enable_line(),
    {
        let r = self.link.write(words);
        assert(self@.trace.drop_last() =~= old(self)@.trace);
        r
    }

    /// Writes the single byte `byte` to the bus.
    fn write_byte(&mut self, byte: u8) -> (r: Result<(), Error>)
        ensures
            final(self)@ == old(self)@.with_trace(
                asked(old(self)@.trace, Command::Write(seq![byte]), r is Ok, Seq::empty()),
            ),
            r matches Err(e) ==> e == Error::Spi,
            final(self)@.select_line() == old(self)@.select_line(),
            final(self)@.enable_line() == old(self)@.enable_line(),
    {
        let words = [byte];
        assert(words@ =~= seq![byte]);
        self.write(&words)
    }

    /// Clocks `words` out on the bus and reads as many bytes back into
    /// them, through the link.
    fn transfer(&mut self, words: &mut [u8]) -> (r: Result<(), Error>)
        ensures
            final(words)@.len() == old(words)@.len(),
            final(self)@ == old(self)@.with_trace(
                asked(
                    old(self)@.trace,
                    Command::Transfer(old(words)@),
                    r is Ok,
                    final(words)@,
                ),
            ),
            r matches Err(e) ==> e == Error::Spi,
            final(self)@.select_line() == old(self)@.select_line(),
            final(self)@.enable_line() == old(self)@.enable_line(),
    {
        let r = self.link.transfer(words);
        assert(self@.trace.drop_last() =~= old(self)@.trace);
        r
    }

    /// Closes the open frame: drives chip-select high, whatever came of the
    /// bus before. The outcome is that of the bus where it failed, else
    /// that of the line.
    fn close(&mut self, sent: Result<(), Error>) -> (r: Result<(), Error>)
        ensures
            final(self)@ == old(self)@.with_trace(
                asked(
                    old(self)@.trace,
                    Command::ChipSelect(true),
                    final(self)@.trace.last().done,
                    Seq::empty(),
                ),
            ),
            r == (if sent is Err {
                sent
            } else if final(self)@.trace.last().done {
                Ok::<(), Error>(())
            } else {
                Err::<(), Error>(Error::Gpio)
            }),
            final(self)@.select_line() == (if final(self)@.trace.last().done {
                Some(true)
            } else {
                None
            }),
            final(self)@.enable_line() == old(self)@.enable_line(),
    {
        let closed = self.select(true);
        assert(self@.trace.last().done == closed is Ok);
        match sent {
            Ok(()) => match closed {
                Ok(()) => Ok(()),
                Err(_) => Err(Error::Gpio),
            },
            Err(e) => Err(e),
        }
    }

    /// Sends a bare instruction, in one frame.
    fn instruct(&mut self, opcode: u8) -> (r: Result<(), Error>)
        ensures
            performed(old(self)@, final(self)@, protocol::bare_instruction(opcode), r),
            final(self)@.transmitting == old(self)@.transmitting,
            final(self)@.select_line() == (if final(self)@.trace.last().done {
                Some(true)
            } else {
                None
            }),
            final(self)@.enable_line() == old(self)@.enable_line(),
    {
        self.select(false)?;
        let sent = self.write_byte(opcode);
        self.close(sent)
    }

    /// Sends an instruction and writes `data` behind it, in one frame.
    fn frame_write(&mut self, opcode: u8, data: &[u8]) -> (r: Result<(), Error>)
        ensures
            performed(old(self)@, final(self)@, protocol::instruction_write(opcode, data@), r),
            final(self)@.transmitting == old(self)@.transmitting,
            final(self)@.select_line() == (if final(self)@.trace.last().done {
                Some(true)
            } else {
                None
            }),
            final(self)@.enable_line() == old(self)@.enable_line(),
    {
        self.select(false)?;
        let mut sent = self.write_byte(opcode);
        if sent.is_ok() {
            sent = self.write(data);
        }
        self.close(sent)
    }

    /// Sends an instruction and clocks `buf` out behind it, reading as many
    /// bytes back into it, in one frame. `buf` stays as it is where the
    /// transfer is not reached.
    fn frame_transfer(&mut self, opcode: u8, buf: &mut [u8]) -> (r: Result<(), Error>)
        ensures
            performed(
                old(self)@,
                final(self)@,
                protocol::instruction_transfer(opcode, old(buf)@),
                r,
            ),
            final(buf)@.len() == old(buf)@.len(),
            final(buf)@ == (if transferred(old(self)@.trace, final(self)@.trace, 2) {
                reply_since(old(self)@.trace, final(self)@.trace, 2)
            } else {
                old(buf)@
            }),
            final(self)@.transmitting == old(self)@.transmitting,
            final(self)@.select_line() == (if final(self)@.trace.last().done {
                Some(true)
            } else {
                None
            }),
            final(self)@.enable_line() == old(self)@.enable_line(),
    {
        self.select(false)?;
        let mut sent = self.write_byte(opcode);
        if sent.is_ok() {
            sent = self.transfer(buf);
        }
        self.close(sent)
    }

    /// Sends an instruction and reads one byte back, in one frame.
    fn frame_read(&mut self, opcode: u8) -> (r: Result<u8, Error>)
        ensures
            performed(
                old(self)@,
                final(self)@,
                protocol::instruction_transfer(opcode, seq![0u8]),
                r,
            ),
            r matches Ok(value) ==> value == byte_since(old(self)@.trace, final(self)@.trace, 2),
            final(self)@.transmitting == old(self)@.transmitting,
            final(self)@.select_line() == (if final(self)@.trace.last().done {
                Some(true)
            } else {
                None
            }),
            final(self)@.enable_line() == old(self)@.enable_line(),
    {
        let mut buffer = [0u8];
        assert(buffer@ =~= seq![0u8]);
        self.frame_transfer(opcode, &mut buffer)?;
        Ok(buffer[0])
    }

    /// Empties the chip's receive FIFO.
    fn flush_rx(&mut self) -> (r: Result<(), Error>)
        ensures
            performed(
                old(self)@,
                final(self)@,
                protocol::bare_instruction(instruction::FLUSH_RX),
                r,
            ),
            final(self)@.transmitting == old(self)@.transmitting,
            final(self)@.select_line() == (if final(self)@.trace.last().done {
                Some(true)
            } else {
                None
            }),
            final(self)@.enable_line() == old(self)@.enable_line(),
    {
        self.instruct(instruction::FLUSH_RX)
    }

    /// Powers the chip up as a transmitter. The chip-enable line is left to
    /// the caller.
    fn power_up_tx(&mut self) -> (r: Result<(), Error>)
        ensures
            performed(old(self)@, final(self)@, protocol::power_up_tx(), r),
            final(self)@.transmitting,
            r is Ok ==> final(self)@.select_line() == Some(true),
            !final(self)@.select_low(),
            final(self)@.enable_line() == old(self)@.enable_line(),
    {
        self.tx_power_status = true;
        self.config_register(memory::CONFIG, MIRF_CONFIG | (1 << bit::PWR_UP))?;
        Ok(())
    }

    /// Tells the chip how long the payloads are.
    fn setup_payload(&mut self) -> (r: Result<(), Error>)
        ensures
            performed(
                old(self)@,
                final(self)@,
                protocol::payload_setup(old(self)@.payload_size),
                r,
            ),
            final(self)@.transmitting == old(self)@.transmitting,
            r is Ok ==> final(self)@.select_line() == Some(true),
            !final(self)@.select_low(),
            final(self)@.enable_line() == old(self)@.enable_line(),
    {
        if self.using_dynamic_payload() {
            proof {
                lemma_in_sequence(
                    protocol::register_write(memory::FEATURE, seq![bit::mask(bit::EN_DPL)]),
                    protocol::register_write(memory::DYN_PD, seq![protocol::dynamic_pipes()]),
                );
            }
            self.config_register(memory::FEATURE, 1 << bit::EN_DPL)?;
            self.config_register(memory::DYN_PD, (1 << bit::DPL_P0) | (1 << bit::DPL_P1))?;
        } else {
            let payload_size = self.payload_size;
            proof {
                lemma_in_sequence(
                    protocol::register_write(memory::RX_PW_P0, seq![payload_size]),
                    protocol::register_write(memory::RX_PW_P1, seq![payload_size]),
                );
            }
            self.config_register(memory::RX_PW_P0, payload_size)?;
            self.config_register(memory::RX_PW_P1, payload_size)?;
        }
        Ok(())
    }

    /// Whether the payload length is left to the chip.
    fn using_dynamic_payload(&self) -> (dynamic: bool)
        ensures
            dynamic == self@.dynamic_payload(),
    {
        self.payload_size == 0
    }

    /// Reads the FIFO status and tells whether the receive FIFO is empty.
    fn rx_fifo_empty(&mut self) -> (r: Result<bool, Error>)
        ensures
            performed(old(self)@, final(self)@, protocol::register_read(memory::FIFO_STATUS), r),
            r matches Ok(empty) ==> empty == status::rx_empty(
                byte_since(old(self)@.trace, final(self)@.trace, 2),
            ),
            final(self)@.transmitting == old(self)@.transmitting,
            r is Ok ==> final(self)@.select_line() == Some(true),
            !final(self)@.select_low(),
            final(self)@.enable_line() == old(self)@.enable_line(),
    {
        let fifo_status = self.read_register(memory::FIFO_STATUS)?;
        if status::receive_fifo_empty(fifo_status) {
            return Ok(true);
        }
        Ok(false)
    }

    /// Waits for the packet in flight to settle, with at most `max_polls`
    /// reads of the status, and tells how many were made.
    fn settle(&mut self, max_polls: u32) -> (r: (Result<(), Error>, u32))
        ensures
            settle_ran(old(self)@, final(self)@, max_polls as nat, r.1 as nat, r.0),
            final(self)@.select_low() ==> old(self)@.select_low(),
            r.0 is Ok ==> final(self)@.select_line() == (if r.1 == 0 {
                old(self)@.select_line()
            } else {
                Some(true)
            }),
            final(self)@.enable_line() == old(self)@.enable_line(),
    {
        let ghost before = self@;
        let mut polls: u32 = 0;
        while self.tx_power_status && polls < max_polls
            invariant
                before == old(self)@,
                polls <= max_polls,
                before.transmitting || polls == 0,
                performed(before, self@, protocol::status_reads(polls as nat), Ok::<(), Error>(())),
                forall|i: int|
                    0 <= i < polls - 1 ==> !status::tx_settled(
                        #[trigger] status_read(before.trace, self@.trace, i),
                    ),
                self@.transmitting == (before.transmitting && (polls == 0 || !status::tx_settled(
                    status_read(before.trace, self@.trace, polls - 1),
                ))),
                self@.select_line() == (if polls == 0 {
                    before.select_line()
                } else {
                    Some(true)
                }),
                self@.select_low() ==> before.select_low(),
                self@.enable_line() == before.enable_line(),
            decreases max_polls - polls,
        {
            let ghost reached = self@;
            let polled = self.get_status();
            proof {
                protocol::lemma_status_reads_len(polls as nat);
                lemma_ran_after(
                    protocol::status_reads(polls as nat),
                    protocol::register_read(memory::STATUS),
                    before.trace,
                    reached.trace,
                    self@.trace,
                    polled is Ok,
                );
                assert forall|i: int| 0 <= i < polls implies !status::tx_settled(
                    #[trigger] status_read(before.trace, self@.trace, i),
                ) by {
                    assert(self@.trace[before.trace.len() + 4 * i + 2]
                        == reached.trace[before.trace.len() + 4 * i + 2]);
                    assert(!status::tx_settled(status_read(before.trace, reached.trace, i)));
                }
            }
            match polled {
                Err(e) => {
                    return (Err(e), polls + 1);
                },
                Ok(status) => {
                    assert(status == status_read(before.trace, self@.trace, polls as int));
                    if status::transmission_settled(status) {
                        self.tx_power_status = false;
                    }
                    polls = polls + 1;
                },
            }
        }
        (Ok(()), polls)
    }

    /// Hands `data` to the radio and starts the transmission.
    fn transmit(&mut self, data: &[u8]) -> (r: Result<(), Error>)
        ensures
            performed(old(self)@, final(self)@, protocol::transmit(data@), r),
            final(self)@.transmitting == (if final(self)@.trace.len() > old(self)@.trace.len() + 1 {
                true
            } else {
                old(self)@.transmitting
            }),
            r is Ok ==> final(self)@.select_line() == Some(true),
            final(self)@.select_low() ==> old(self)@.select_low(),
            r is Ok ==> final(self)@.enable_line() == Some(true),
    {
        proof {
            let low = seq![Command::ChipEnable(false)];
            let mode = protocol::power_up_tx();
            let flush = protocol::bare_instruction(instruction::FLUSH_TX);
            let payload = protocol::instruction_write(instruction::W_TX_PAYLOAD, data@);
            lemma_in_sequence(low, mode);
            lemma_in_sequence(low + mode, flush);
            lemma_in_sequence(low + mode + flush, payload);
            lemma_in_sequence(low + mode + flush + payload, seq![Command::ChipEnable(true)]);
        }
        self.enable(false)?;
        self.power_up_tx()?;
        self.instruct(instruction::FLUSH_TX)?;
        self.frame_write(instruction::W_TX_PAYLOAD, data)?;
        self.enable(true)?;
        Ok(())
    }

    /// Reads a payload of `length` bytes into the front of `buf` and
    /// acknowledges it.
    fn read_payload(&mut self, buf: &mut [u8], length: u8) -> (r: Result<(), Error>)
        requires
            length <= old(buf)@.len(),
        ensures
            performed(
                old(self)@,
                final(self)@,
                protocol::payload_read(old(buf)@.take(length as int)),
                r,
            ),
            final(buf)@.len() == old(buf)@.len(),
            final(buf)@ == (if transferred(old(self)@.trace, final(self)@.trace, 2) {
                reply_since(old(self)@.trace, final(self)@.trace, 2) + old(buf)@.skip(length as int)
            } else {
                old(buf)@
            }),
            final(self)@.transmitting == old(self)@.transmitting,
            r is Ok ==> final(self)@.select_line() == Some(true),
            !final(self)@.select_low(),
            final(self)@.enable_line() == old(self)@.enable_line(),
    {
        proof {
            lemma_in_sequence(
                protocol::instruction_transfer(
                    instruction::R_RX_PAYLOAD,
                    old(buf)@.take(length as int),
                ),
                protocol::register_write(memory::STATUS, seq![bit::mask(bit::RX_DR)]),
            );
        }
        let ghost held = buf@;
        let ghost before = self@;
        let (front, _rest) = buf.split_at_mut(length as usize);
        let read = self.frame_transfer(instruction::R_RX_PAYLOAD, front);
        let ghost reached = self@;
        proof {
            assert(held =~= held.take(length as int) + held.skip(length as int));
        }
        if let Err(e) = read {
            return Err(e);
        }
        self.config_register(memory::STATUS, 1 << bit::RX_DR)?;
        Ok(())
    }
}

} // verus!
