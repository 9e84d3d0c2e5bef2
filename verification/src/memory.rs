//! Register addresses of the transceiver's memory map.

use vstd::prelude::*;

verus! {

/// Configuration register: CRC setup, power-up and primary-receiver bits.
pub const CONFIG: u8 = 0x00;

/// RF channel register.
pub const RF_CH: u8 = 0x05;

/// Status register.
pub const STATUS: u8 = 0x07;

/// Receive address of data pipe 0.
pub const RX_ADDR_P0: u8 = 0x0A;

/// Receive address of data pipe 1.
pub const RX_ADDR_P1: u8 = 0x0B;

/// Transmit address.
pub const TX_ADDR: u8 = 0x10;

/// Payload width of data pipe 0.
pub const RX_PW_P0: u8 = 0x11;

/// Payload width of data pipe 1.
pub const RX_PW_P1: u8 = 0x12;

/// FIFO status register.
pub const FIFO_STATUS: u8 = 0x17;

/// Per-pipe enable bits of the dynamic payload length.
pub const DYN_PD: u8 = 0x1C;

/// Feature register.
pub const FEATURE: u8 = 0x1D;

} // verus!
