//! The record of what the driver asked of its bus and of its two lines, and
//! how each request ended.
//!
//! The driver's contracts are stated over this record: a *plan* is the
//! sequence of commands an operation issues when nothing fails, and the
//! predicates below say how far a record got along a plan. An operation
//! breaks off at the first request that fails. Where that is a write or a
//! transfer, a frame is open on the bus: chip-select is driven high once
//! more before the error is returned, so that no frame is left open.

use vstd::prelude::*;

verus! {

/// One request to the hardware.
#[verifier::ext_equal]
pub enum Command {
    /// Drive the chip-select line: high (idle) when `true`, low (a bus
    /// transaction is open) when `false`.
    ChipSelect(bool),
    /// Drive the chip-enable line: high (radio active) when `true`, low
    /// (standby) when `false`.
    ChipEnable(bool),
    /// Write these bytes to the bus, ignoring what comes back.
    Write(Seq<u8>),
    /// Clock these bytes out on the bus and read as many back.
    Transfer(Seq<u8>),
}

/// A command together with what came of it.
#[verifier::ext_equal]
pub struct Exchange {
    /// What was asked.
    pub command: Command,
    /// Whether the hardware reported success.
    pub done: bool,
    /// What the buffer of a transfer held when the transfer returned;
    /// empty for every other command.
    pub reply: Seq<u8>,
}

/// The record `before` with one more exchange: `command` was asked, ended
/// as `done` tells, and brought `reply`.
pub open spec fn asked(
    before: Seq<Exchange>,
    command: Command,
    done: bool,
    reply: Seq<u8>,
) -> Seq<Exchange> {
    before.push(Exchange { command, done, reply })
}

/// `after` starts with all of `before`.
pub open spec fn extends(before: Seq<Exchange>, after: Seq<Exchange>) -> bool {
    &&& before.len() <= after.len()
    &&& after.subrange(0, before.len() as int) =~= before
}

/// `after` is `before` followed by one exchange for each command of `plan`,
/// in order, and every one of them succeeded.
pub open spec fn completed(
    plan: Seq<Command>,
    before: Seq<Exchange>,
    after: Seq<Exchange>,
) -> bool {
    &&& extends(before, after)
    &&& after.len() == before.len() + plan.len()
    &&& forall|i: int|
        0 <= i < plan.len() ==> {
            &&& after[before.len() + i].command == #[trigger] plan[i]
            &&& after[before.len() + i].done
        }
}

/// Whether `command` goes to the bus.
pub open spec fn on_bus(command: Command) -> bool {
    command is Write || command is Transfer
}

/// Whether exchange number `step` (from 0) among those that `after` holds
/// beyond `before` is there and is a transfer.
pub open spec fn transferred(before: Seq<Exchange>, after: Seq<Exchange>, step: int) -> bool {
    &&& after.len() > before.len() + step
    &&& after[before.len() + step].command is Transfer
}

/// The number (from 0), among the exchanges that `after` holds beyond
/// `before`, of the request that failed, where one did: the last, or the
/// one before the last where that failed already (what follows it then is
/// the closing of the frame).
pub open spec fn failed_step(before: Seq<Exchange>, after: Seq<Exchange>) -> int {
    let last = after.len() - before.len() - 1;
    if last >= 1 && !after[after.len() - 2].done {
        last - 1
    } else {
        last
    }
}

/// `after` is `before` followed by exchanges for the first commands of
/// `plan`, in order, of which all succeeded but the last: the operation
/// broke off at the first failure. Where it was the bus that failed, a
/// frame was open, and one more exchange follows: chip-select was driven
/// high to close it, with whatever success.
pub open spec fn stopped(plan: Seq<Command>, before: Seq<Exchange>, after: Seq<Exchange>) -> bool {
    let at = failed_step(before, after);
    &&& extends(before, after)
    &&& 0 <= at < plan.len()
    &&& forall|i: int|
        0 <= i <= at ==> {
            &&& after[before.len() + i].command == #[trigger] plan[i]
            &&& after[before.len() + i].done <==> i < at
        }
    &&& if on_bus(plan[at]) {
        &&& after.len() == before.len() + at + 2
        &&& after.last().command == Command::ChipSelect(true)
    } else {
        after.len() == before.len() + at + 1
    }
}

/// How a record relates to the plan of an operation that returned success
/// (`ok`) or an error (`!ok`).
pub open spec fn ran(
    plan: Seq<Command>,
    before: Seq<Exchange>,
    after: Seq<Exchange>,
    ok: bool,
) -> bool {
    if ok {
        completed(plan, before, after)
    } else {
        stopped(plan, before, after)
    }
}

/// The reply of exchange number `step` (from 0) among those that `after`
/// holds beyond `before`.
pub open spec fn reply_since(before: Seq<Exchange>, after: Seq<Exchange>, step: int) -> Seq<u8> {
    after[before.len() + step].reply
}

/// The first byte of that reply: what a one-byte read brought back.
pub open spec fn byte_since(before: Seq<Exchange>, after: Seq<Exchange>, step: int) -> u8 {
    reply_since(before, after, step)[0]
}

/// The level that the chip-select line was last driven to, `None` where the
/// record holds no such command or the last one failed.
pub open spec fn select_level(trace: Seq<Exchange>) -> Option<bool>
    decreases trace.len(),
{
    if trace.len() == 0 {
        None
    } else {
        match trace.last().command {
            Command::ChipSelect(high) => if trace.last().done {
                Some(high)
            } else {
                None
            },
            _ => select_level(trace.drop_last()),
        }
    }
}

/// The level that the chip-enable line was last driven to, `None` where the
/// record holds no such command or the last one failed.
pub open spec fn enable_level(trace: Seq<Exchange>) -> Option<bool>
    decreases trace.len(),
{
    if trace.len() == 0 {
        None
    } else {
        match trace.last().command {
            Command::ChipEnable(high) => if trace.last().done {
                Some(high)
            } else {
                None
            },
            _ => enable_level(trace.drop_last()),
        }
    }
}

/// An operation succeeds exactly when none of its requests fails: the
/// exchanges that a run of a plan adds to the record are all done where the
/// run ended well, and where it did not, the one that `failed_step` points
/// at is not.
pub proof fn lemma_success_is_no_failure(
    plan: Seq<Command>,
    before: Seq<Exchange>,
    after: Seq<Exchange>,
    ok: bool,
)
    requires
        ran(plan, before, after, ok),
    ensures
        ok <==> forall|i: int| before.len() <= i < after.len() ==> (#[trigger] after[i]).done,
        !ok ==> {
            &&& 0 <= failed_step(before, after) < after.len() - before.len()
            &&& !after[before.len() + failed_step(before, after)].done
        },
{
    if ok {
        assert forall|i: int| before.len() <= i < after.len() implies (
        #[trigger] after[i]).done by {
            let j = i - before.len();
            assert(after[before.len() + j].command == plan[j]);
        }
    } else {
        let at = failed_step(before, after);
        assert(after[before.len() + at].command == plan[at]);
    }
}

/// Where the bus failed in an open frame and the closing of the frame
/// succeeded, chip-select is high again.
pub proof fn lemma_closed_after_bus_failure(
    plan: Seq<Command>,
    before: Seq<Exchange>,
    after: Seq<Exchange>,
)
    requires
        stopped(plan, before, after),
        on_bus(plan[failed_step(before, after)]),
        after.last().done,
    ensures
        select_level(after) == Some(true),
{
}

/// Two operations in a row: where the first ran its whole plan, the record
/// of both follows the two plans joined.
pub proof fn lemma_ran_after(
    first: Seq<Command>,
    second: Seq<Command>,
    start: Seq<Exchange>,
    middle: Seq<Exchange>,
    end: Seq<Exchange>,
    ok: bool,
)
    requires
        completed(first, start, middle),
        ran(second, middle, end, ok),
    ensures
        ran(first + second, start, end, ok),
{
    let joined = first + second;
    if ok {
        assert forall|i: int| 0 <= i < joined.len() implies {
            &&& end[start.len() + i].command == #[trigger] joined[i]
            &&& end[start.len() + i].done
        } by {
            if i < first.len() {
                assert(joined[i] == first[i]);
                assert(end[start.len() + i] == middle[start.len() + i]);
            } else {
                let j = i - first.len();
                assert(joined[i] == second[j]);
                assert(end[start.len() + i] == end[middle.len() + j]);
            }
        }
    } else {
        let inner = failed_step(middle, end);
        let at = first.len() + inner;
        assert(failed_step(start, end) == at) by {
            if first.len() > 0 && end.len() - middle.len() == 1 {
                assert(first[first.len() - 1] == first[first.len() - 1]);
                assert(end[end.len() - 2] == middle[start.len() + first.len() - 1]);
            }
        }
        assert(joined[at] == second[inner]);
        assert forall|i: int| 0 <= i <= at implies {
            &&& end[start.len() + i].command == #[trigger] joined[i]
            &&& end[start.len() + i].done <==> i < at
        } by {
            if i < first.len() {
                assert(joined[i] == first[i]);
                assert(end[start.len() + i] == middle[start.len() + i]);
            } else {
                let j = i - first.len();
                assert(joined[i] == second[j]);
                assert(end[start.len() + i] == end[middle.len() + j]);
            }
        }
    }
}

/// An operation that broke off has also broken off every longer plan that
/// starts with its own.
pub proof fn lemma_stopped_short(
    plan: Seq<Command>,
    rest: Seq<Command>,
    before: Seq<Exchange>,
    after: Seq<Exchange>,
)
    requires
        stopped(plan, before, after),
    ensures
        stopped(plan + rest, before, after),
{
    let joined = plan + rest;
    let at = failed_step(before, after);
    assert(joined[at] == plan[at]);
    assert forall|i: int| 0 <= i <= at implies {
        &&& after[before.len() + i].command == #[trigger] joined[i]
        &&& after[before.len() + i].done <==> i < at
    } by {
        assert(joined[i] == plan[i]);
    }
}

/// The two facts above for every record at once: once this is known of
/// `first` and `second`, a function that runs the one and then the other
/// follows `first + second`, wherever it ends.
pub proof fn lemma_in_sequence(first: Seq<Command>, second: Seq<Command>)
    ensures
        forall|before: Seq<Exchange>, after: Seq<Exchange>| #[trigger]
            stopped(first, before, after) ==> stopped(first + second, before, after),
        forall|start: Seq<Exchange>, middle: Seq<Exchange>, end: Seq<Exchange>, ok: bool|
            #![trigger completed(first, start, middle), ran(second, middle, end, ok)]
            completed(first, start, middle) && ran(second, middle, end, ok) ==> ran(
                first + second,
                start,
                end,
                ok,
            ),
{
    assert forall|before: Seq<Exchange>, after: Seq<Exchange>| #[trigger]
        stopped(first, before, after) implies stopped(first + second, before, after) by {
        lemma_stopped_short(first, second, before, after);
    }
    assert forall|start: Seq<Exchange>, middle: Seq<Exchange>, end: Seq<Exchange>, ok: bool|
        #![trigger completed(first, start, middle), ran(second, middle, end, ok)]
        completed(first, start, middle) && ran(second, middle, end, ok) implies ran(
        first + second,
        start,
        end,
        ok,
    ) by {
        lemma_ran_after(first, second, start, middle, end, ok);
    }
}

} // verus!
