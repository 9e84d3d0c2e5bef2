//! The chip's side of the bus, as far as register writes go: what a chip
//! that decodes the commands holds as the value last written to each of
//! its registers.

use vstd::prelude::*;

use crate::instruction;
use crate::trace::Command;

verus! {

/// A chip that listens on the bus.
pub struct Chip {
    /// For each register address, the value last written to it.
    pub written: Map<u8, Seq<u8>>,
    /// Whether chip-select is low: a frame is open.
    pub selected: bool,
    /// The instruction byte of the open frame, once it has come.
    pub instruction: Option<u8>,
}

/// Whether `opcode` is a register write: the three high bits are those of
/// the write instruction, the five low bits hold the register address.
pub open spec fn is_register_write(opcode: u8) -> bool {
    opcode & !instruction::REGISTER_MASK == instruction::W_REGISTER
}

/// The chip after it has seen `command`. A frame opens when chip-select
/// goes low; its first byte is the instruction; where that is a register
/// write, the write that follows is the new value of the register.
pub open spec fn sees(chip: Chip, command: Command) -> Chip {
    match command {
        Command::ChipSelect(high) => Chip { selected: !high, instruction: None, ..chip },
        Command::ChipEnable(_) => chip,
        Command::Transfer(_) => chip,
        Command::Write(bytes) => if !chip.selected || bytes.len() == 0 {
            chip
        } else {
            match chip.instruction {
                None => Chip { instruction: Some(bytes[0]), ..chip },
                Some(opcode) => if is_register_write(opcode) {
                    Chip {
                        written: chip.written.insert(opcode & instruction::REGISTER_MASK, bytes),
                        ..chip
                    }
                } else {
                    chip
                },
            }
        },
    }
}

/// The chip after the first `count` commands of `plan`.
pub open spec fn after(chip: Chip, plan: Seq<Command>, count: nat) -> Chip
    decreases count,
{
    if count == 0 {
        chip
    } else {
        sees(after(chip, plan, (count - 1) as nat), plan[count - 1])
    }
}

/// The chip after all of `plan`.
pub open spec fn after_all(chip: Chip, plan: Seq<Command>) -> Chip {
    after(chip, plan, plan.len())
}

} // verus!
