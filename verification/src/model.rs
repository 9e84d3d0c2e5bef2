//! The state of a driver as the contracts speak of it, and what each
//! operation of the driver does to it.

use vstd::prelude::*;

use crate::error::{fault_of, Error};
use crate::memory;
use crate::protocol;
use crate::status;
use crate::trace::{
    byte_since, enable_level, failed_step, ran, reply_since, select_level, transferred, Command,
    Exchange,
};

verus! {

/// What a driver is, seen from outside.
#[verifier::ext_equal]
pub struct Model {
    /// The RF channel that `config` writes to the chip.
    pub channel: u8,
    /// The fixed payload length in bytes; 0 stands for the chip's dynamic
    /// payload length.
    pub payload_size: u8,
    /// Whether a packet was handed to the radio whose outcome has not been
    /// seen yet.
    pub transmitting: bool,
    /// Everything the driver has asked of the hardware since it was made.
    pub trace: Seq<Exchange>,
}

impl Model {
    /// Whether the chip's dynamic payload length is used.
    pub open spec fn dynamic_payload(self) -> bool {
        self.payload_size == 0
    }

    /// This state with `trace` in place of its record.
    pub open spec fn with_trace(self, trace: Seq<Exchange>) -> Model {
        Model { trace, ..self }
    }

    /// The level of the chip-select line as the record shows it.
    pub open spec fn select_line(self) -> Option<bool> {
        select_level(self.trace)
    }

    /// Whether chip-select was left low: the record shows a frame that was
    /// opened and not closed.
    pub open spec fn select_low(self) -> bool {
        self.select_line() == Some(false)
    }

    /// The level of the chip-enable line as the record shows it.
    pub open spec fn enable_line(self) -> Option<bool> {
        enable_level(self.trace)
    }
}

/// The record of `after` is that of `before` grown by a run of `plan` that
/// ended as `r` tells: all of the plan where `r` is `Ok`; where it is an
/// error, the plan up to the first command that failed, then the closing
/// of the frame where it was the bus that failed, and the error is the one
/// of the command that failed. Channel and payload length are those of
/// `before`.
pub open spec fn performed<T>(
    before: Model,
    after: Model,
    plan: Seq<Command>,
    r: Result<T, Error>,
) -> bool {
    &&& after.channel == before.channel
    &&& after.payload_size == before.payload_size
    &&& ran(plan, before.trace, after.trace, r is Ok)
    &&& r matches Err(e) ==> e == fault_of(
        after.trace[before.trace.len() + failed_step(before.trace, after.trace)].command,
    )
}

/// What `is_sending` does. With no packet in flight it answers `false` and
/// asks nothing of the chip. Else it reads the status: where that reports
/// the packet sent or given up, it powers up into receive mode, the packet
/// is no longer in flight and the answer is `false`; where not, the answer
/// is `true` and the packet stays in flight.
pub open spec fn is_sending_ran(before: Model, after: Model, r: Result<bool, Error>) -> bool {
    let status = byte_since(before.trace, after.trace, 2);
    let read = protocol::register_read(memory::STATUS);
    if !before.transmitting {
        r == Ok::<bool, Error>(false) && after == before
    } else {
        match r {
            Ok(busy) => {
                &&& busy == !status::tx_settled(status)
                &&& after.transmitting == busy
                &&& performed(
                    before,
                    after,
                    if busy {
                        read
                    } else {
                        read + protocol::power_up_rx()
                    },
                    r,
                )
            },
            Err(_) => {
                &&& performed(before, after, read + protocol::power_up_rx(), r)
                &&& after.transmitting == (after.trace.len() <= before.trace.len() + read.len())
                &&& !after.transmitting ==> status::tx_settled(status)
            },
        }
    }
}

/// What `data_ready` does. It reads the status, and where that reports no
/// received data, the FIFO status too. The answer is `true` where the
/// status reports received data or the FIFO status a receive FIFO that is
/// not empty, and `false` where neither does.
pub open spec fn data_ready_ran(before: Model, after: Model, r: Result<bool, Error>) -> bool {
    let status = byte_since(before.trace, after.trace, 2);
    let fifo_status = byte_since(before.trace, after.trace, 6);
    let first = protocol::register_read(memory::STATUS);
    let second = protocol::register_read(memory::FIFO_STATUS);
    match r {
        Ok(ready) => {
            &&& ready == (status::rx_ready(status) || !status::rx_empty(fifo_status))
            &&& performed(
                before,
                after,
                if status::rx_ready(status) {
                    first
                } else {
                    first + second
                },
                r,
            )
        },
        Err(_) => {
            &&& performed(before, after, first + second, r)
            &&& after.trace.len() > before.trace.len() + first.len() ==> !status::rx_ready(status)
        },
    }
}

/// The status byte that read number `number` (from 0) brought back, in a
/// run of status reads that `after` holds beyond `before`.
pub open spec fn status_read(before: Seq<Exchange>, after: Seq<Exchange>, number: int) -> u8 {
    byte_since(before, after, 4 * number + 2)
}

/// What waiting for the packet in flight does, with at most `max_polls`
/// reads of the status. With none in flight nothing is read. Else the
/// status is read until it reports the packet sent or given up, which ends
/// the flight, or until `max_polls` reads are made.
pub open spec fn settle_ran(
    before: Model,
    after: Model,
    max_polls: nat,
    polls: nat,
    r: Result<(), Error>,
) -> bool {
    &&& polls <= max_polls
    &&& before.transmitting || polls == 0
    &&& performed(before, after, protocol::status_reads(polls), r)
    &&& forall|i: int|
        0 <= i < polls - 1 ==> !status::tx_settled(
            #[trigger] status_read(before.trace, after.trace, i),
        )
    &&& match r {
        Ok(_) => {
            &&& after.transmitting == (before.transmitting && (polls == 0 || !status::tx_settled(
                status_read(before.trace, after.trace, polls - 1),
            )))
            &&& after.transmitting ==> polls == max_polls
        },
        Err(_) => after.transmitting == before.transmitting,
    }
}

/// What `send` does, where it polls the status `polls` times for the
/// outcome of the packet before. It reads the status once, whatever it
/// holds. With a packet in flight it then reads the status until that
/// reports the packet sent or given up, at most `max_polls` times; where
/// the packet is still in flight after that, `send` hands nothing over and
/// answers `false`. Else it hands `data` to the radio, which is in flight
/// from then on, and answers `true`.
pub open spec fn send_ran(
    before: Model,
    after: Model,
    data: Seq<u8>,
    max_polls: nat,
    polls: nat,
    r: Result<bool, Error>,
) -> bool {
    let waited = 4 + 4 * polls;
    let grown = after.trace.len() - before.trace.len();
    let settled = before.transmitting ==> polls >= 1 && status::tx_settled(
        status_read(before.trace, after.trace, polls as int),
    );
    &&& polls <= max_polls
    &&& before.transmitting || polls == 0
    &&& forall|i: int|
        1 <= i < polls ==> !status::tx_settled(#[trigger] status_read(before.trace, after.trace, i))
    &&& match r {
        Ok(handed) => {
            &&& performed(before, after, protocol::send(polls, data, handed), r)
            &&& after.transmitting
            &&& handed ==> settled
            &&& !handed ==> {
                &&& before.transmitting
                &&& polls == max_polls
                &&& polls >= 1 ==> !status::tx_settled(
                    status_read(before.trace, after.trace, polls as int),
                )
            }
        },
        Err(_) => {
            &&& performed(before, after, protocol::send(polls, data, true), r)
            &&& grown > waited ==> settled
            &&& after.transmitting == (if grown <= waited {
                before.transmitting
            } else {
                grown > waited + 1
            })
        },
    }
}

/// What `get_data` does with a buffer that holds `held` and holds `got`
/// afterwards. The payload length is the one of the driver, or, with the
/// dynamic payload length, what the chip answers when asked for the width.
/// Where the buffer is shorter than that, no payload is read and the answer
/// is `None`. Else the payload is read into the front of the buffer and
/// acknowledged, and the answer is the payload length. The buffer stays as
/// it is until the transfer of the payload is made; from then on its front
/// holds what the transfer brought, and the rest is as it was.
pub open spec fn get_data_ran(
    before: Model,
    after: Model,
    held: Seq<u8>,
    got: Seq<u8>,
    r: Result<Option<u8>, Error>,
) -> bool {
    let dynamic = before.dynamic_payload();
    let asked: int = if dynamic {
        4
    } else {
        0
    };
    let length = if dynamic {
        byte_since(before.trace, after.trace, 2)
    } else {
        before.payload_size
    };
    let fits = length <= held.len();
    let sent = held.take(length as int);
    let brought = transferred(before.trace, after.trace, asked + 2);
    &&& got.len() == held.len()
    &&& if brought {
        got == reply_since(before.trace, after.trace, asked + 2) + held.skip(length as int)
    } else {
        got == held
    }
    &&& match r {
        Ok(Some(count)) => {
            &&& fits
            &&& count == length
            &&& performed(before, after, protocol::get_data(dynamic, sent), r)
        },
        Ok(None) => {
            &&& !fits
            &&& performed(before, after, protocol::get_data_refused(dynamic), r)
        },
        Err(_) => {
            &&& performed(before, after, protocol::get_data(dynamic, sent), r)
            &&& after.trace.len() > before.trace.len() + asked ==> fits
        },
    }
}

} // verus!
