//! Bit positions inside the transceiver's registers.

use vstd::prelude::*;

verus! {

/// CONFIG: enable the CRC.
pub const EN_CRC: u8 = 3;

/// CONFIG: CRC length, one byte when clear.
pub const CRCO: u8 = 2;

/// CONFIG: power up.
pub const PWR_UP: u8 = 1;

/// CONFIG: primary receiver when set, primary transmitter when clear.
pub const PRIM_RX: u8 = 0;

/// STATUS: a payload arrived in the receive FIFO.
pub const RX_DR: u8 = 6;

/// STATUS: the packet in flight was sent (and acknowledged).
pub const TX_DS: u8 = 5;

/// STATUS: the packet in flight was given up after the last retransmit.
pub const MAX_RT: u8 = 4;

/// FIFO_STATUS: the receive FIFO is empty.
pub const RX_EMPTY: u8 = 0;

/// DYN_PD: dynamic payload length on data pipe 0.
pub const DPL_P0: u8 = 0;

/// DYN_PD: dynamic payload length on data pipe 1.
pub const DPL_P1: u8 = 1;

/// FEATURE: enable the dynamic payload length.
pub const EN_DPL: u8 = 2;

/// The byte that has the bit at `position` set and no other.
pub open spec fn mask(position: u8) -> u8 {
    1u8 << position
}

/// Whether `byte` has the bit at `position` set.
pub open spec fn is_set(byte: u8, position: u8) -> bool {
    byte & mask(position) != 0
}

} // verus!
