//! Syscall-rate monitoring for a single process: the probe's counting rule,
//! the per-CPU aggregation, the rate and normalisation transforms, and the
//! polling state machine that binds them.
//!
//! Everything here is a function of plain values. Loading the probe, reading
//! its maps, sleeping and sending are left to the caller, who reports back
//! what came of them.

pub mod bridge;
pub mod clock;
pub mod probe;
pub mod proc_mon;
pub mod process_data;
pub mod rate;

use crate::clock::duration_nanos;
use crate::proc_mon::{MonitorState, ProcMon};
use std::time::Duration;
use vstd::prelude::*;

verus! {

/// Width of every counter table and vector: one cell per syscall number.
pub const MAX_SYSCALLS: u32 = 512;

/// The polling interval of a monitor made by `run_ebsentinel_ebpf`, in
/// milliseconds.
pub const DEFAULT_INTERVAL_MILLIS: u64 = 100;

/// A monitor for `pid` with the default polling interval.
pub fn run_ebsentinel_ebpf(pid: u32) -> (monitor: ProcMon)
    ensures
        monitor@ == MonitorState::fresh(pid, monitor@.rate),
        duration_nanos(monitor@.rate) == DEFAULT_INTERVAL_MILLIS * 1_000_000,
{
    ProcMon::new(pid, Duration::from_millis(DEFAULT_INTERVAL_MILLIS))
}

} // verus!
