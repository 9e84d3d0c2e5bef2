//! A driver for the nRF24L01 2.4 GHz transceiver on a serial bus, with a
//! chip-select and a chip-enable line, for buses and lines of
//! `embedded-hal`.
//!
//! The driver is polled and synchronous: every operation makes a bounded
//! number of requests to the hardware and returns. What an operation asks
//! of the hardware is stated in its contract, over the record of requests
//! that the driver keeps as ghost state ([`trace`]), as a plan of commands
//! ([`protocol`]) that is carried out to its end or up to the first request
//! that fails; a frame in which the bus fails is closed before the error is
//! returned. What holds of these plans whatever the arguments is proved in
//! [`laws`].
//!
//! Of the hardware nothing is assumed: the calls into `embedded-hal` stand
//! in one private file, and a status byte or a payload is whatever the bus
//! brought back.

pub mod bit;
pub mod chip;
pub mod driver;
pub mod error;
pub mod framing;
pub mod instruction;
pub mod laws;
mod link;
pub mod memory;
pub mod mode;
pub mod model;
pub mod protocol;
pub mod status;
pub mod trace;

pub use crate::driver::NRF24L01;
pub use crate::error::Error;
pub use crate::protocol::{MIRF_ADDR_LEN, MIRF_CONFIG};
