//! What the driver reads out of the status and FIFO-status bytes.

use vstd::prelude::*;

use crate::bit;

verus! {

/// The status byte reports that the packet in flight was sent or given up.
pub open spec fn tx_settled(status: u8) -> bool {
    bit::is_set(status, bit::TX_DS) || bit::is_set(status, bit::MAX_RT)
}

/// The status byte reports a payload in the receive FIFO.
pub open spec fn rx_ready(status: u8) -> bool {
    bit::is_set(status, bit::RX_DR)
}

/// The FIFO-status byte reports an empty receive FIFO.
pub open spec fn rx_empty(fifo_status: u8) -> bool {
    bit::is_set(fifo_status, bit::RX_EMPTY)
}

/// Tells whether `status` reports the end of a transmission, by success or
/// by the last retransmit.
pub fn transmission_settled(status: u8) -> (settled: bool)
    ensures
        settled == tx_settled(status),
{
    assert((status & ((1u8 << 5u8) | (1u8 << 4u8)) != 0) == (status & (1u8 << 5u8) != 0
        || status & (1u8 << 4u8) != 0)) by (bit_vector);
    (status & ((1 << bit::TX_DS) | (1 << bit::MAX_RT))) != 0
}

/// Tells whether `status` reports received data.
pub fn data_received(status: u8) -> (ready: bool)
    ensures
        ready == rx_ready(status),
{
    (status & (1 << bit::RX_DR)) != 0
}

/// Tells whether `fifo_status` reports an empty receive FIFO.
pub fn receive_fifo_empty(fifo_status: u8) -> (empty: bool)
    ensures
        empty == rx_empty(fifo_status),
{
    (fifo_status & (1 << bit::RX_EMPTY)) != 0
}

} // verus!
