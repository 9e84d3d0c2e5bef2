//! Instruction opcodes of the transceiver's serial command set.

use vstd::prelude::*;

verus! {

/// Read a register; the register address goes into the low five bits.
pub const R_REGISTER: u8 = 0x00;

/// Write a register; the register address goes into the low five bits.
pub const W_REGISTER: u8 = 0x20;

/// The bits of a register instruction that hold the register address.
pub const REGISTER_MASK: u8 = 0x1F;

/// Read the width of the payload at the head of the receive FIFO.
pub const R_RX_PL_WID: u8 = 0x60;

/// Read the payload at the head of the receive FIFO.
pub const R_RX_PAYLOAD: u8 = 0x61;

/// Write a payload into the transmit FIFO.
pub const W_TX_PAYLOAD: u8 = 0xA0;

/// Empty the transmit FIFO.
pub const FLUSH_TX: u8 = 0xE1;

/// Empty the receive FIFO.
pub const FLUSH_RX: u8 = 0xE2;

/// The opcode that reads `register`.
pub open spec fn read_of(register: u8) -> u8 {
    R_REGISTER | (REGISTER_MASK & register)
}

/// The opcode that writes `register`.
pub open spec fn write_of(register: u8) -> u8 {
    W_REGISTER | (REGISTER_MASK & register)
}

} // verus!
