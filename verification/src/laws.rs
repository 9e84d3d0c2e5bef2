//! What holds of the driver's plans, whatever the arguments.

use vstd::prelude::*;

use crate::bit;
use crate::chip;
use crate::chip::Chip;
use crate::framing::{framed, lemma_framed_join, stage_after};
use crate::instruction;
use crate::memory;
use crate::protocol;
use crate::protocol::MIRF_CONFIG;
use crate::status;
use crate::trace::Command;

verus! {

/// The register instructions and the values that the driver writes are the
/// bytes that the chip's data sheet gives.
pub proof fn lemma_documented_bytes()
    ensures
        instruction::write_of(memory::CONFIG) == 0x20,
        instruction::write_of(memory::RF_CH) == 0x25,
        instruction::write_of(memory::STATUS) == 0x27,
        instruction::write_of(memory::RX_ADDR_P0) == 0x2A,
        instruction::write_of(memory::RX_ADDR_P1) == 0x2B,
        instruction::write_of(memory::TX_ADDR) == 0x30,
        instruction::write_of(memory::RX_PW_P0) == 0x31,
        instruction::write_of(memory::RX_PW_P1) == 0x32,
        instruction::write_of(memory::DYN_PD) == 0x3C,
        instruction::write_of(memory::FEATURE) == 0x3D,
        instruction::read_of(memory::STATUS) == 0x07,
        instruction::read_of(memory::FIFO_STATUS) == 0x17,
        MIRF_CONFIG == bit::mask(bit::EN_CRC),
        protocol::receive_config() == 0x0B,
        protocol::transmit_config() == 0x0A,
        protocol::transmit_flags() == 0x30,
        protocol::dynamic_pipes() == 0x03,
        bit::mask(bit::EN_DPL) == 0x04,
        bit::mask(bit::RX_DR) == 0x40,
{
    assert(0x20u8 | (0x1Fu8 & 0x00u8) == 0x20u8) by (bit_vector);
    assert(0x20u8 | (0x1Fu8 & 0x05u8) == 0x25u8) by (bit_vector);
    assert(0x20u8 | (0x1Fu8 & 0x07u8) == 0x27u8) by (bit_vector);
    assert(0x20u8 | (0x1Fu8 & 0x0Au8) == 0x2Au8) by (bit_vector);
    assert(0x20u8 | (0x1Fu8 & 0x0Bu8) == 0x2Bu8) by (bit_vector);
    assert(0x20u8 | (0x1Fu8 & 0x10u8) == 0x30u8) by (bit_vector);
    assert(0x20u8 | (0x1Fu8 & 0x11u8) == 0x31u8) by (bit_vector);
    assert(0x20u8 | (0x1Fu8 & 0x12u8) == 0x32u8) by (bit_vector);
    assert(0x20u8 | (0x1Fu8 & 0x1Cu8) == 0x3Cu8) by (bit_vector);
    assert(0x20u8 | (0x1Fu8 & 0x1Du8) == 0x3Du8) by (bit_vector);
    assert(0x00u8 | (0x1Fu8 & 0x07u8) == 0x07u8) by (bit_vector);
    assert(0x00u8 | (0x1Fu8 & 0x17u8) == 0x17u8) by (bit_vector);
    assert(0x08u8 == 1u8 << 3u8) by (bit_vector);
    assert(0x08u8 | ((1u8 << 1u8) | (1u8 << 0u8)) == 0x0Bu8) by (bit_vector);
    assert(0x08u8 | (1u8 << 1u8) == 0x0Au8) by (bit_vector);
    assert((1u8 << 5u8) | (1u8 << 4u8) == 0x30u8) by (bit_vector);
    assert((1u8 << 0u8) | (1u8 << 1u8) == 0x03u8) by (bit_vector);
    assert(1u8 << 2u8 == 0x04u8) by (bit_vector);
    assert(1u8 << 6u8 == 0x40u8) by (bit_vector);
}

/// The flags that the driver looks at, by the value of the byte: a
/// transmission is settled where bit 5 (sent) or bit 4 (given up) of the
/// status is set, data is received where bit 6 of the status is set, and
/// the receive FIFO is empty where bit 0 of the FIFO status is set.
pub proof fn lemma_flags_by_value(byte: u8)
    ensures
        status::tx_settled(byte) <==> (byte / 16) % 4 != 0,
        status::rx_ready(byte) <==> (byte / 64) % 2 == 1,
        status::rx_empty(byte) <==> byte % 2 == 1,
{
    assert((byte & (1u8 << 5u8) != 0 || byte & (1u8 << 4u8) != 0) <==> (byte / 16) % 4 != 0)
        by (bit_vector);
    assert(byte & (1u8 << 6u8) != 0 <==> (byte / 64) % 2 == 1) by (bit_vector);
    assert(byte & (1u8 << 0u8) != 0 <==> byte % 2 == 1) by (bit_vector);
}

/// Byte for byte, the end of every `config`: chip-enable low, 0x0B (CRC,
/// power up, primary receiver) to CONFIG, chip-enable high, 0x30 (clear the
/// sent and the given-up flag) to STATUS, and the instruction FLUSH_RX.
pub open spec fn listening() -> Seq<Command> {
    seq![Command::ChipEnable(false)] + protocol::instruction_write(0x20, seq![0x0Bu8])
        + seq![Command::ChipEnable(true)] + protocol::instruction_write(0x27, seq![0x30u8])
        + protocol::bare_instruction(0xE2)
}

/// With a fixed payload length, `config` issues exactly this, whatever the
/// channel: the channel to RF_CH, the payload length to RX_PW_P0 and to
/// RX_PW_P1, and `listening`.
pub proof fn lemma_config_fixed(channel: u8, payload_size: u8)
    requires
        payload_size != 0,
    ensures
        protocol::config(channel, payload_size) == protocol::instruction_write(
            0x25,
            seq![channel],
        ) + protocol::instruction_write(0x31, seq![payload_size]) + protocol::instruction_write(
            0x32,
            seq![payload_size],
        ) + listening(),
{
    lemma_documented_bytes();
}

/// With the dynamic payload length, `config` issues exactly this, whatever
/// the channel: the channel to RF_CH, 0x04 (enable the dynamic payload
/// length) to FEATURE, 0x03 (pipes 0 and 1) to DYN_PD, and `listening`.
pub proof fn lemma_config_dynamic(channel: u8)
    ensures
        protocol::config(channel, 0) == protocol::instruction_write(0x25, seq![channel])
            + protocol::instruction_write(0x3D, seq![0x04u8]) + protocol::instruction_write(
            0x3C,
            seq![0x03u8],
        ) + listening(),
{
    lemma_documented_bytes();
}

/// A run of status reads is framed.
pub proof fn lemma_status_reads_framed(count: nat)
    ensures
        framed(protocol::status_reads(count)),
    decreases count,
{
    if count > 0 {
        lemma_status_reads_framed((count - 1) as nat);
        lemma_frames();
        lemma_framed_join(
            protocol::status_reads((count - 1) as nat),
            protocol::register_read(memory::STATUS),
        );
    }
}

/// Each bus transaction of the driver is one frame: chip-select low, one
/// instruction byte, at most one write or transfer, chip-select high.
pub proof fn lemma_frames()
    ensures
        forall|register: u8, value: Seq<u8>| #[trigger]
            framed(protocol::register_write(register, value)),
        forall|register: u8| #[trigger] framed(protocol::register_read(register)),
        forall|opcode: u8| #[trigger] framed(protocol::bare_instruction(opcode)),
        forall|opcode: u8, data: Seq<u8>| #[trigger]
            framed(protocol::instruction_write(opcode, data)),
        forall|opcode: u8, sent: Seq<u8>| #[trigger]
            framed(protocol::instruction_transfer(opcode, sent)),
        forall|high: bool| #[trigger] framed(seq![Command::ChipEnable(high)]),
{
    reveal_with_fuel(stage_after, 5);
}

/// Every operation of the driver frames its bus traffic: whatever the
/// arguments, the plan of each is framed. So chip-select is high before and
/// after each transaction and never stays low between two of them, and
/// chip-enable never changes inside one.
pub proof fn lemma_plans_framed(
    channel: u8,
    payload_size: u8,
    addr: Seq<u8>,
    data: Seq<u8>,
    polls: nat,
    handed: bool,
    dynamic: bool,
    sent: Seq<u8>,
)
    ensures
        framed(protocol::startup()),
        framed(protocol::config(channel, payload_size)),
        framed(protocol::power_up_rx()),
        framed(protocol::power_up_tx()),
        framed(protocol::power_down()),
        framed(protocol::set_raddr(addr)),
        framed(protocol::set_taddr(addr)),
        framed(protocol::register_read(memory::STATUS)),
        framed(protocol::send(polls, data, handed)),
        framed(protocol::register_read(memory::STATUS) + protocol::power_up_rx()),
        framed(
            protocol::register_read(memory::STATUS) + protocol::register_read(memory::FIFO_STATUS),
        ),
        framed(protocol::get_data(dynamic, sent)),
        framed(protocol::get_data_refused(dynamic)),
{
    lemma_frames();
    let low = seq![Command::ChipEnable(false)];
    let high = seq![Command::ChipEnable(true)];
    let status = protocol::register_read(memory::STATUS);
    assert(framed(protocol::startup())) by {
        reveal_with_fuel(stage_after, 3);
    }
    assert(framed(protocol::power_up_rx())) by {
        let configure = protocol::register_write(memory::CONFIG, seq![protocol::receive_config()]);
        lemma_framed_join(low, configure);
        lemma_framed_join(low + configure, high);
        lemma_framed_join(
            low + configure + high,
            protocol::register_write(memory::STATUS, seq![protocol::transmit_flags()]),
        );
    }
    assert(framed(protocol::power_down())) by {
        lemma_framed_join(low, protocol::register_write(memory::CONFIG, seq![MIRF_CONFIG]));
    }
    assert(framed(protocol::payload_setup(payload_size))) by {
        lemma_framed_join(
            protocol::register_write(memory::FEATURE, seq![bit::mask(bit::EN_DPL)]),
            protocol::register_write(memory::DYN_PD, seq![protocol::dynamic_pipes()]),
        );
        lemma_framed_join(
            protocol::register_write(memory::RX_PW_P0, seq![payload_size]),
            protocol::register_write(memory::RX_PW_P1, seq![payload_size]),
        );
    }
    assert(framed(protocol::config(channel, payload_size))) by {
        let tune = protocol::register_write(memory::RF_CH, seq![channel]);
        let setup = protocol::payload_setup(payload_size);
        lemma_framed_join(tune, setup);
        lemma_framed_join(tune + setup, protocol::power_up_rx());
        lemma_framed_join(
            tune + setup + protocol::power_up_rx(),
            protocol::bare_instruction(instruction::FLUSH_RX),
        );
    }
    assert(framed(protocol::set_raddr(addr))) by {
        let write = protocol::register_write(memory::RX_ADDR_P1, addr);
        lemma_framed_join(low, write);
        lemma_framed_join(low + write, high);
    }
    assert(framed(protocol::set_taddr(addr))) by {
        lemma_framed_join(
            protocol::register_write(memory::RX_ADDR_P0, addr),
            protocol::register_write(memory::TX_ADDR, addr),
        );
    }
    assert(framed(protocol::transmit(data))) by {
        let mode = protocol::power_up_tx();
        let flush = protocol::bare_instruction(instruction::FLUSH_TX);
        let payload = protocol::instruction_write(instruction::W_TX_PAYLOAD, data);
        lemma_framed_join(low, mode);
        lemma_framed_join(low + mode, flush);
        lemma_framed_join(low + mode + flush, payload);
        lemma_framed_join(low + mode + flush + payload, high);
    }
    assert(framed(protocol::send(polls, data, handed))) by {
        lemma_status_reads_framed(polls);
        lemma_framed_join(status, protocol::status_reads(polls));
        lemma_framed_join(status + protocol::status_reads(polls), protocol::transmit(data));
    }
    lemma_framed_join(status, protocol::power_up_rx());
    lemma_framed_join(status, protocol::register_read(memory::FIFO_STATUS));
    assert(framed(protocol::payload_read(sent))) by {
        lemma_framed_join(
            protocol::instruction_transfer(instruction::R_RX_PAYLOAD, sent),
            protocol::register_write(memory::STATUS, seq![bit::mask(bit::RX_DR)]),
        );
    }
    lemma_framed_join(protocol::payload_width(), protocol::payload_read(sent));
    assert(framed(Seq::<Command>::empty()));
}

/// `set_raddr` makes one register write, with chip-enable low before it and
/// high behind it, and touches chip-enable nowhere else.
pub proof fn lemma_set_raddr_brackets(addr: Seq<u8>)
    ensures
        protocol::set_raddr(addr).len() == 6,
        protocol::set_raddr(addr).first() == Command::ChipEnable(false),
        protocol::set_raddr(addr).subrange(1, 5) == protocol::register_write(
            memory::RX_ADDR_P1,
            addr,
        ),
        protocol::set_raddr(addr).last() == Command::ChipEnable(true),
{
}

/// `set_taddr` never asks anything of the chip-enable line.
pub proof fn lemma_set_taddr_leaves_enable(addr: Seq<u8>)
    ensures
        forall|i: int|
            0 <= i < protocol::set_taddr(addr).len() ==> !(
            #[trigger] protocol::set_taddr(addr)[i] is ChipEnable),
{
}

/// With a fixed payload length, `get_data` makes two transactions, and the
/// first starts with the read-payload instruction: the chip is not asked
/// for the width. With the dynamic payload length the width is asked for
/// first, and the same two transactions follow.
pub proof fn lemma_width_asked_when_dynamic(sent: Seq<u8>)
    ensures
        protocol::get_data(false, sent).len() == 8,
        protocol::get_data(false, sent)[1] == Command::Write(seq![instruction::R_RX_PAYLOAD]),
        forall|i: int|
            0 <= i < 8 ==> #[trigger] protocol::get_data(false, sent)[i] != Command::Write(
                seq![instruction::R_RX_PL_WID],
            ),
        protocol::get_data(true, sent).len() == 12,
        protocol::get_data(true, sent)[1] == Command::Write(seq![instruction::R_RX_PL_WID]),
        protocol::get_data(true, sent).subrange(4, 12) == protocol::get_data(false, sent),
{
    lemma_documented_bytes();
    let plan = protocol::get_data(false, sent);
    let asks = Command::Write(seq![instruction::R_RX_PL_WID]);
    assert forall|i: int| 0 <= i < 8 implies #[trigger] plan[i] != asks by {
        assert(seq![instruction::R_RX_PL_WID][0] == 0x60);
        if i == 1 {
            assert(plan[1] == Command::Write(seq![instruction::R_RX_PAYLOAD]));
            assert(seq![instruction::R_RX_PAYLOAD][0] == 0x61);
        } else if i == 5 {
            assert(plan[5] == Command::Write(seq![instruction::write_of(memory::STATUS)]));
            assert(seq![instruction::write_of(memory::STATUS)][0] == 0x27);
        } else if i == 6 {
            assert(plan[6] == Command::Write(seq![bit::mask(bit::RX_DR)]));
            assert(seq![bit::mask(bit::RX_DR)][0] == 0x40);
        }
    }
}

/// What `set_taddr` writes can be read back: a chip that decodes the bus
/// holds `addr` as the value last written to its transmit address, and to
/// the receive address of pipe 0, once `set_taddr` has run.
pub proof fn lemma_set_taddr_round_trip(chip: Chip, addr: Seq<u8>)
    requires
        addr.len() > 0,
    ensures
        chip::after_all(chip, protocol::set_taddr(addr)).written[memory::TX_ADDR] == addr,
        chip::after_all(chip, protocol::set_taddr(addr)).written[memory::RX_ADDR_P0] == addr,
        chip::after_all(chip, protocol::set_taddr(addr)).written.dom().contains(memory::TX_ADDR),
        chip::after_all(chip, protocol::set_taddr(addr)).written.dom().contains(
            memory::RX_ADDR_P0,
        ),
{
    reveal_with_fuel(chip::after, 9);
    lemma_documented_bytes();
    assert(0x2Au8 & !0x1Fu8 == 0x20u8) by (bit_vector);
    assert(0x30u8 & !0x1Fu8 == 0x20u8) by (bit_vector);
    assert(0x2Au8 & 0x1Fu8 == 0x0Au8) by (bit_vector);
    assert(0x30u8 & 0x1Fu8 == 0x10u8) by (bit_vector);
}

/// The same for `set_raddr` and the receive address of pipe 1.
pub proof fn lemma_set_raddr_round_trip(chip: Chip, addr: Seq<u8>)
    requires
        addr.len() > 0,
    ensures
        chip::after_all(chip, protocol::set_raddr(addr)).written[memory::RX_ADDR_P1] == addr,
        chip::after_all(chip, protocol::set_raddr(addr)).written.dom().contains(
            memory::RX_ADDR_P1,
        ),
{
    reveal_with_fuel(chip::after, 7);
    lemma_documented_bytes();
    assert(0x2Bu8 & !0x1Fu8 == 0x20u8) by (bit_vector);
    assert(0x2Bu8 & 0x1Fu8 == 0x0Bu8) by (bit_vector);
}

} // verus!
