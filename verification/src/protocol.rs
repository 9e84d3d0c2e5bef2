//! The command sequences of the chip's serial protocol: for each operation
//! of the driver, the plan that it carries out when nothing fails.

use vstd::prelude::*;

use crate::bit;
use crate::instruction;
use crate::memory;
use crate::trace::Command;

verus! {

/// The base value of the configuration register: CRC enabled, one byte
/// long, everything else off (powered down).
pub const MIRF_CONFIG: u8 = 0x08;

/// The length in bytes of the radio addresses this driver is used with.
pub const MIRF_ADDR_LEN: u8 = 5;

/// The configuration byte for powered-up receive mode.
pub open spec fn receive_config() -> u8 {
    MIRF_CONFIG | (bit::mask(bit::PWR_UP) | bit::mask(bit::PRIM_RX))
}

/// The configuration byte for powered-up transmit mode.
pub open spec fn transmit_config() -> u8 {
    MIRF_CONFIG | bit::mask(bit::PWR_UP)
}

/// The status byte that clears the two transmit-outcome flags.
pub open spec fn transmit_flags() -> u8 {
    bit::mask(bit::TX_DS) | bit::mask(bit::MAX_RT)
}

/// The byte that switches the dynamic payload length on for pipes 0 and 1.
pub open spec fn dynamic_pipes() -> u8 {
    bit::mask(bit::DPL_P0) | bit::mask(bit::DPL_P1)
}

/// One bus transaction that sends the bare instruction `opcode`.
pub open spec fn bare_instruction(opcode: u8) -> Seq<Command> {
    seq![Command::ChipSelect(false), Command::Write(seq![opcode]), Command::ChipSelect(true)]
}

/// One bus transaction that sends `opcode` and then writes `data`.
pub open spec fn instruction_write(opcode: u8, data: Seq<u8>) -> Seq<Command> {
    seq![
        Command::ChipSelect(false),
        Command::Write(seq![opcode]),
        Command::Write(data),
        Command::ChipSelect(true),
    ]
}

/// One bus transaction that sends `opcode` and then clocks `sent` out while
/// reading as many bytes back. They come back as the reply of the third
/// exchange.
pub open spec fn instruction_transfer(opcode: u8, sent: Seq<u8>) -> Seq<Command> {
    seq![
        Command::ChipSelect(false),
        Command::Write(seq![opcode]),
        Command::Transfer(sent),
        Command::ChipSelect(true),
    ]
}

/// One bus transaction that writes `value` to `register`.
pub open spec fn register_write(register: u8, value: Seq<u8>) -> Seq<Command> {
    instruction_write(instruction::write_of(register), value)
}

/// One bus transaction that reads one byte from `register`. The byte comes
/// back as the reply of the third exchange.
pub open spec fn register_read(register: u8) -> Seq<Command> {
    instruction_transfer(instruction::read_of(register), seq![0u8])
}

/// Bringing both lines to rest when a driver is made: chip-enable low,
/// chip-select high.
pub open spec fn startup() -> Seq<Command> {
    seq![Command::ChipEnable(false), Command::ChipSelect(true)]
}

/// Powering up into receive mode: with chip-enable low, write the receive
/// configuration; raise chip-enable to listen; clear the two
/// transmit-outcome flags.
pub open spec fn power_up_rx() -> Seq<Command> {
    seq![Command::ChipEnable(false)] + register_write(memory::CONFIG, seq![receive_config()])
        + seq![Command::ChipEnable(true)] + register_write(memory::STATUS, seq![transmit_flags()])
}

/// Powering up into transmit mode.
pub open spec fn power_up_tx() -> Seq<Command> {
    register_write(memory::CONFIG, seq![transmit_config()])
}

/// Powering down: chip-enable low, then the base configuration.
pub open spec fn power_down() -> Seq<Command> {
    seq![Command::ChipEnable(false)] + register_write(memory::CONFIG, seq![MIRF_CONFIG])
}

/// Setting up the payload length: the chip's dynamic payload length on
/// pipes 0 and 1 where `payload_size` is 0, else `payload_size` as the
/// width of both pipes.
pub open spec fn payload_setup(payload_size: u8) -> Seq<Command> {
    if payload_size == 0 {
        register_write(memory::FEATURE, seq![bit::mask(bit::EN_DPL)]) + register_write(
            memory::DYN_PD,
            seq![dynamic_pipes()],
        )
    } else {
        register_write(memory::RX_PW_P0, seq![payload_size]) + register_write(
            memory::RX_PW_P1,
            seq![payload_size],
        )
    }
}

/// Configuring the radio: the channel, the payload length, power-up into
/// receive mode, and an empty receive FIFO.
pub open spec fn config(channel: u8, payload_size: u8) -> Seq<Command> {
    register_write(memory::RF_CH, seq![channel]) + payload_setup(payload_size) + power_up_rx()
        + bare_instruction(instruction::FLUSH_RX)
}

/// Setting the address that pipe 1 listens on, with chip-enable low around
/// the write.
pub open spec fn set_raddr(addr: Seq<u8>) -> Seq<Command> {
    seq![Command::ChipEnable(false)] + register_write(memory::RX_ADDR_P1, addr)
        + seq![Command::ChipEnable(true)]
}

/// Setting the address that packets go to: pipe 0 listens on it for the
/// acknowledgements, and the transmit address is set to it.
pub open spec fn set_taddr(addr: Seq<u8>) -> Seq<Command> {
    register_write(memory::RX_ADDR_P0, addr) + register_write(memory::TX_ADDR, addr)
}

/// Handing `data` to the radio: chip-enable low, transmit mode, an empty
/// transmit FIFO, the payload, and chip-enable high to start sending.
pub open spec fn transmit(data: Seq<u8>) -> Seq<Command> {
    seq![Command::ChipEnable(false)] + power_up_tx() + bare_instruction(instruction::FLUSH_TX)
        + instruction_write(instruction::W_TX_PAYLOAD, data) + seq![Command::ChipEnable(true)]
}

/// Reading the status register `count` times in a row.
pub open spec fn status_reads(count: nat) -> Seq<Command>
    decreases count,
{
    if count == 0 {
        Seq::empty()
    } else {
        status_reads((count - 1) as nat) + register_read(memory::STATUS)
    }
}

/// What `send` issues when it polls the status `polls` times for the
/// outcome of the packet before, and then hands over `data` (`handed`) or
/// gives up.
pub open spec fn send(polls: nat, data: Seq<u8>, handed: bool) -> Seq<Command> {
    let waited = register_read(memory::STATUS) + status_reads(polls);
    if handed {
        waited + transmit(data)
    } else {
        waited
    }
}

/// Asking the chip for the width of the payload at the head of the receive
/// FIFO.
pub open spec fn payload_width() -> Seq<Command> {
    instruction_transfer(instruction::R_RX_PL_WID, seq![0u8])
}

/// Reading a payload into a buffer that holds `sent`, and acknowledging it
/// by clearing the data-ready flag.
pub open spec fn payload_read(sent: Seq<u8>) -> Seq<Command> {
    instruction_transfer(instruction::R_RX_PAYLOAD, sent) + register_write(
        memory::STATUS,
        seq![bit::mask(bit::RX_DR)],
    )
}

/// What `get_data` issues when it reads a payload: with the dynamic payload
/// length (`dynamic`) the width is asked for first.
pub open spec fn get_data(dynamic: bool, sent: Seq<u8>) -> Seq<Command> {
    if dynamic {
        payload_width() + payload_read(sent)
    } else {
        payload_read(sent)
    }
}

/// What `get_data` issues when the buffer is too short for the payload.
pub open spec fn get_data_refused(dynamic: bool) -> Seq<Command> {
    if dynamic {
        payload_width()
    } else {
        Seq::empty()
    }
}

/// A run of `count` status reads has four commands for each.
pub proof fn lemma_status_reads_len(count: nat)
    ensures
        status_reads(count).len() == 4 * count,
    decreases count,
{
    if count > 0 {
        lemma_status_reads_len((count - 1) as nat);
    }
}

} // verus!
