//! The kernel-side hook: what one syscall-entry event does to the counters
//! of the CPU it arrives on.
//!
//! The hook runs where nothing may trap, block or loop without bound, so it
//! is two small decisions, `slot` and `bump`, around one store. They are
//! given here on their own, for a hook that holds a single cell of the
//! table, and together, on a whole table.

use crate::bridge::{column, lemma_seq_sum_update, seq_sum};
use vstd::prelude::*;

verus! {

/// What the hook reads from a syscall-entry event.
#[derive(Clone, Copy, Debug, PartialEq, Eq, Structural)]
pub struct SysEnter {
    /// The process that made the call.
    pub pid: u32,
    /// The syscall number, as the kernel hands it over.
    pub syscall_id: i64,
}

/// The counter that a syscall number selects: its low 32 bits.
pub open spec fn slot_of(syscall_id: i64) -> int {
    syscall_id as int % 0x1_0000_0000
}

/// The counter that an event is counted in, if it is counted at all: only
/// events of the monitored process are, and none before a pid is set.
pub open spec fn selected(event: SysEnter, monitored: Option<u32>) -> Option<u32> {
    if monitored == Some(event.pid) {
        Some(slot_of(event.syscall_id) as u32)
    } else {
        None
    }
}

/// A counter after one more call. Counters wrap around: the one after the
/// largest value is zero.
pub open spec fn bumped(count: u64) -> u64 {
    if count == u64::MAX {
        0
    } else {
        (count + 1) as u64
    }
}

/// The counters of one CPU after an event: the event's counter is one
/// higher where the event comes from the monitored process and its syscall
/// number selects a counter of the table; anything else leaves no trace.
pub open spec fn counted(counters: Seq<u64>, monitored: Option<u32>, event: SysEnter) -> Seq<u64> {
    match selected(event, monitored) {
        Some(slot) if slot < counters.len() => counters.update(slot as int, bumped(counters[slot as int])),
        _ => counters,
    }
}

proof fn lemma_slot_of(syscall_id: i64)
    ensures
        (#[verifier::truncate] (syscall_id as u32)) as int == slot_of(syscall_id),
{
    assert((#[verifier::truncate] (syscall_id as u32)) as int == syscall_id as int % 0x1_0000_0000)
        by (bit_vector);
}

/// The counter to raise for `event`, if any.
pub fn slot(event: SysEnter, monitored: Option<u32>) -> (slot: Option<u32>)
    ensures
        slot == selected(event, monitored),
{
    match monitored {
        Some(monitored_pid) if event.pid == monitored_pid => {
            proof {
                lemma_slot_of(event.syscall_id);
            }
            Some(#[verifier::truncate] (event.syscall_id as u32))
        },
        _ => None,
    }
}

/// The next value of a counter.
pub fn bump(count: u64) -> (next: u64)
    ensures
        next == bumped(count),
{
    count.wrapping_add(1)
}

pub fn try_sys_enter(event: SysEnter, monitored: Option<u32>, counters: &mut Vec<u64>) -> (status:
    Result<i32, i32>)
    ensures
        status == Ok::<i32, i32>(0),
        final(counters)@ == counted(old(counters)@, monitored, event),
{
    if let Some(slot) = slot(event, monitored) {
        let slot = slot as usize;
        if slot < counters.len() {
            let count = counters[slot];
            counters.set(slot, bump(count));
        }
    }
    Ok(0)
}

/// The hook on syscall entry. It always reports success to the kernel: an
/// event of another process, an unset monitored pid and a syscall number
/// outside the table are all silently passed over.
pub fn ebsentinel(event: SysEnter, monitored: Option<u32>, counters: &mut Vec<u64>) -> (status: i32)
    ensures
        status == 0,
        final(counters)@ == counted(old(counters)@, monitored, event),
{
    match try_sys_enter(event, monitored, counters) {
        Ok(ret) => ret,
        Err(ret) => ret,
    }
}

/// The status that the kernel is given for an event whose handling was
/// given up. A tracing program may neither trap nor spin, so there is no
/// failure to report: the event is dropped and the answer is success.
pub fn panic() -> (status: i32)
    ensures
        status == 0,
{
    0
}

/// An event touches exactly one counter, the one that its syscall number
/// selects, and only where it comes from the monitored process; every other
/// counter stays as it was.
pub proof fn lemma_counted_effect(counters: Seq<u64>, monitored: Option<u32>, event: SysEnter)
    ensures
        counted(counters, monitored, event).len() == counters.len(),
        forall|i: int|
            0 <= i < counters.len() ==> #[trigger] counted(counters, monitored, event)[i] == if monitored
                == Some(event.pid) && i == slot_of(event.syscall_id) {
                bumped(counters[i])
            } else {
                counters[i]
            },
{
    match selected(event, monitored) {
        Some(slot) => {
            assert(0 <= slot_of(event.syscall_id) < 0x1_0000_0000);
        },
        None => {},
    }
}

/// What the probe counts is what a snapshot sums. An event on one CPU
/// raises the sum over all CPUs of the counter it is counted in by one, as
/// long as that CPU's cell is not full, and leaves the sum of every other
/// counter as it was; an event that is not counted leaves all sums as they
/// were.
pub proof fn lemma_event_in_sums(
    table: Seq<Seq<u64>>,
    cpu: int,
    monitored: Option<u32>,
    event: SysEnter,
    index: int,
)
    requires
        0 <= cpu < table.len(),
        0 <= index < table[cpu].len(),
    ensures
        seq_sum(column(table.update(cpu, counted(table[cpu], monitored, event)), index)) == seq_sum(
            column(table, index),
        ) + if monitored == Some(event.pid) && slot_of(event.syscall_id) == index {
            bumped(table[cpu][index]) - table[cpu][index]
        } else {
            0
        },
        table[cpu][index] < u64::MAX ==> bumped(table[cpu][index]) - table[cpu][index] == 1,
{
    let after = table.update(cpu, counted(table[cpu], monitored, event));
    lemma_counted_effect(table[cpu], monitored, event);
    let cell = counted(table[cpu], monitored, event)[index];
    assert(column(after, index) =~= column(table, index).update(cpu, cell));
    lemma_seq_sum_update(column(table, index), cpu, cell);
}

} // verus!
