//! The shape of a well-formed command sequence: every transfer on the bus
//! stands inside one frame of the chip-select line, and a frame holds one
//! instruction and at most one payload.

use vstd::prelude::*;

use crate::trace::Command;

verus! {

/// Where the chip-select line and the bus stand between two commands.
pub enum Stage {
    /// Chip-select is high: no transaction is open.
    Idle,
    /// Chip-select went low: the instruction byte is due.
    Selected,
    /// The instruction byte is out: its payload, or the end of the frame,
    /// is due.
    Instructed,
    /// The payload is through: the end of the frame is due.
    Exchanged,
    /// A command came out of turn.
    Broken,
}

/// The stage that `command` leads to from `stage`.
pub open spec fn step(stage: Stage, command: Command) -> Stage {
    match (stage, command) {
        (Stage::Idle, Command::ChipSelect(high)) => if high {
            Stage::Idle
        } else {
            Stage::Selected
        },
        (Stage::Idle, Command::ChipEnable(_)) => Stage::Idle,
        (Stage::Selected, Command::Write(bytes)) => if bytes.len() == 1 {
            Stage::Instructed
        } else {
            Stage::Broken
        },
        (Stage::Instructed, Command::Write(_)) => Stage::Exchanged,
        (Stage::Instructed, Command::Transfer(_)) => Stage::Exchanged,
        (Stage::Instructed, Command::ChipSelect(true)) => Stage::Idle,
        (Stage::Exchanged, Command::ChipSelect(true)) => Stage::Idle,
        _ => Stage::Broken,
    }
}

/// The stage after the first `count` commands of `plan`, from `Idle`.
pub open spec fn stage_after(plan: Seq<Command>, count: nat) -> Stage
    decreases count,
{
    if count == 0 {
        Stage::Idle
    } else {
        step(stage_after(plan, (count - 1) as nat), plan[count - 1])
    }
}

/// `plan` starts and ends with chip-select high; chip-select goes low only
/// to open a frame and high only to close one (or while it is high
/// already); the bus is used only inside a frame, for one instruction byte
/// and then at most one write or transfer; and chip-enable changes only
/// between frames.
pub open spec fn framed(plan: Seq<Command>) -> bool {
    stage_after(plan, plan.len()) == Stage::Idle
}

/// The stages of a plan do not depend on what follows it.
pub proof fn lemma_stage_of_front(front: Seq<Command>, back: Seq<Command>, count: nat)
    requires
        count <= front.len(),
    ensures
        stage_after(front + back, count) == stage_after(front, count),
    decreases count,
{
    if count > 0 {
        lemma_stage_of_front(front, back, (count - 1) as nat);
        assert((front + back)[count - 1] == front[count - 1]);
    }
}

/// After a framed plan, the stages of what follows are those it has alone.
pub proof fn lemma_stage_of_back(front: Seq<Command>, back: Seq<Command>, count: nat)
    requires
        framed(front),
        count <= back.len(),
    ensures
        stage_after(front + back, front.len() + count) == stage_after(back, count),
    decreases count,
{
    if count == 0 {
        lemma_stage_of_front(front, back, front.len());
    } else {
        lemma_stage_of_back(front, back, (count - 1) as nat);
        assert((front + back)[front.len() + count - 1] == back[count - 1]);
    }
}

/// Two framed plans in a row are framed.
pub proof fn lemma_framed_join(front: Seq<Command>, back: Seq<Command>)
    requires
        framed(front),
        framed(back),
    ensures
        framed(front + back),
{
    lemma_stage_of_back(front, back, back.len());
}

} // verus!
