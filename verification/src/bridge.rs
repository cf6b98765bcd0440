//! The user-space side of the probe's maps: the order in which the probe is
//! brought up, the values written into the monitored-pid cell, and the sum of
//! the per-CPU counters into one snapshot.

use vstd::prelude::*;

verus! {

/// One step of bringing the probe up. The steps run in the order in which
/// they are listed; `LoadProgress` says what follows each.
#[derive(Clone, Copy, Debug, PartialEq, Eq, Structural)]
pub enum LoadStep {
    /// Lift the ceiling on locked memory. Older kernels need it, newer ones
    /// do not, so a failure here is noted and nothing more.
    RaiseMemlock,
    /// Hand the program image to the kernel.
    LoadImage,
    /// Start the probe's own log channel. A program without log statements
    /// has none, so a failure here is noted and nothing more.
    InitLogger,
    /// Read the kernel's type information.
    ReadBtf,
    /// Load the program for the syscall-entry tracepoint.
    LoadProgram,
    /// Attach the loaded program to the tracepoint.
    AttachProgram,
    /// Write the monitored pid into every CPU's slot of the pid cell.
    PublishPid,
}

impl LoadStep {
    /// The number of steps from this one to the end of the bring-up, this
    /// one counted.
    pub open spec fn remaining(self) -> nat {
        match self {
            LoadStep::RaiseMemlock => 7,
            LoadStep::LoadImage => 6,
            LoadStep::InitLogger => 5,
            LoadStep::ReadBtf => 4,
            LoadStep::LoadProgram => 3,
            LoadStep::AttachProgram => 2,
            LoadStep::PublishPid => 1,
        }
    }
}

/// The class of a fatal error.
#[derive(Clone, Copy, Debug, PartialEq, Eq, Structural)]
pub enum ErrorKind {
    /// The program image is missing or invalid.
    LoadError,
    /// The tracepoint is unavailable, or the process may not trace.
    AttachError,
    /// The monitored pid could not be written.
    ConfigError,
}

/// A fatal error: its class and the step that failed. Together they tell a
/// broken image (`LoadImage`) from missing kernel support (`ReadBtf`,
/// `AttachProgram`) from missing privilege (`LoadProgram`).
#[derive(Clone, Copy, Debug, PartialEq, Eq, Structural)]
pub struct MonitorError {
    pub kind: ErrorKind,
    pub step: LoadStep,
}

/// What follows a step.
#[derive(Clone, Copy, Debug, PartialEq, Eq, Structural)]
pub enum LoadProgress {
    /// Go on with this step.
    Next(LoadStep),
    /// The probe is attached and knows its pid.
    Loaded,
    /// The session is over.
    Failed(MonitorError),
}

/// The step that follows `step` when it went well or did not matter.
pub open spec fn step_after(step: LoadStep) -> LoadProgress {
    match step {
        LoadStep::RaiseMemlock => LoadProgress::Next(LoadStep::LoadImage),
        LoadStep::LoadImage => LoadProgress::Next(LoadStep::InitLogger),
        LoadStep::InitLogger => LoadProgress::Next(LoadStep::ReadBtf),
        LoadStep::ReadBtf => LoadProgress::Next(LoadStep::LoadProgram),
        LoadStep::LoadProgram => LoadProgress::Next(LoadStep::AttachProgram),
        LoadStep::AttachProgram => LoadProgress::Next(LoadStep::PublishPid),
        LoadStep::PublishPid => LoadProgress::Loaded,
    }
}

/// The class of error that a failure of `step` is, if it is one at all.
pub open spec fn failure_of(step: LoadStep) -> Option<ErrorKind> {
    match step {
        LoadStep::RaiseMemlock => None,
        LoadStep::LoadImage => Some(ErrorKind::LoadError),
        LoadStep::InitLogger => None,
        LoadStep::ReadBtf => Some(ErrorKind::AttachError),
        LoadStep::LoadProgram => Some(ErrorKind::AttachError),
        LoadStep::AttachProgram => Some(ErrorKind::AttachError),
        LoadStep::PublishPid => Some(ErrorKind::ConfigError),
    }
}

/// What follows `step`, given whether it succeeded: a failure that has a
/// class ends the session, and everything else leads to the next step.
pub open spec fn progress_after(step: LoadStep, succeeded: bool) -> LoadProgress {
    match failure_of(step) {
        Some(kind) if !succeeded => LoadProgress::Failed(MonitorError { kind, step }),
        _ => step_after(step),
    }
}

/// What to do after `step`, given whether it succeeded.
pub fn next_step(step: LoadStep, succeeded: bool) -> (progress: LoadProgress)
    ensures
        progress == progress_after(step, succeeded),
{
    let fatal = match step {
        LoadStep::RaiseMemlock => None,
        LoadStep::LoadImage => Some(ErrorKind::LoadError),
        LoadStep::InitLogger => None,
        LoadStep::ReadBtf => Some(ErrorKind::AttachError),
        LoadStep::LoadProgram => Some(ErrorKind::AttachError),
        LoadStep::AttachProgram => Some(ErrorKind::AttachError),
        LoadStep::PublishPid => Some(ErrorKind::ConfigError),
    };
    match fatal {
        Some(kind) if !succeeded => LoadProgress::Failed(MonitorError { kind, step }),
        _ => match step {
            LoadStep::RaiseMemlock => LoadProgress::Next(LoadStep::LoadImage),
            LoadStep::LoadImage => LoadProgress::Next(LoadStep::InitLogger),
            LoadStep::InitLogger => LoadProgress::Next(LoadStep::ReadBtf),
            LoadStep::ReadBtf => LoadProgress::Next(LoadStep::LoadProgram),
            LoadStep::LoadProgram => LoadProgress::Next(LoadStep::AttachProgram),
            LoadStep::AttachProgram => LoadProgress::Next(LoadStep::PublishPid),
            LoadStep::PublishPid => LoadProgress::Loaded,
        },
    }
}

/// The bring-up ends: every step leads to one that is nearer to the end, or
/// ends it. It ends well only after the last step, and it ends badly exactly
/// where a step fails whose failure has a class.
pub proof fn lemma_bring_up_ends(step: LoadStep, succeeded: bool)
    ensures
        match progress_after(step, succeeded) {
            LoadProgress::Next(next) => next.remaining() == step.remaining() - 1,
            LoadProgress::Loaded => step == LoadStep::PublishPid && succeeded,
            LoadProgress::Failed(error) => !succeeded && error.step == step && failure_of(step)
                == Some(error.kind),
        },
        succeeded ==> !(progress_after(step, succeeded) is Failed),
{
}

/// The values to write into the monitored-pid cell: the same pid once for
/// every CPU.
pub fn pid_values(pid: u32, nr_cpus: usize) -> (values: Vec<u32>)
    ensures
        values@ == Seq::new(nr_cpus as nat, |i: int| pid),
{
    let values = vec![pid; nr_cpus];
    assert(values@ =~= Seq::new(nr_cpus as nat, |i: int| pid));
    values
}

/// The sum of the entries of `s`.
pub open spec fn seq_sum(s: Seq<u64>) -> int
    decreases s.len(),
{
    if s.len() == 0 {
        0
    } else {
        seq_sum(s.drop_last()) + s.last()
    }
}

/// What one counter holds over all CPUs: the sum of its per-CPU values, and
/// zero where the counter could not be read.
pub open spec fn slot_total(read: Option<Vec<u64>>) -> int {
    match read {
        Some(values) => seq_sum(values@),
        None => 0,
    }
}

/// A sum as a 64-bit counter holds it: counters wrap around, they do not
/// saturate and they do not fail.
pub open spec fn wrap64(x: int) -> int {
    x % 0x1_0000_0000_0000_0000
}

/// The snapshot of a table read counter by counter.
pub open spec fn counts_of(reads: Seq<Option<Vec<u64>>>) -> Seq<u64> {
    Seq::new(reads.len(), |i: int| wrap64(slot_total(reads[i])) as u64)
}

pub proof fn lemma_seq_sum_nonnegative(s: Seq<u64>)
    ensures
        seq_sum(s) >= 0,
    decreases s.len(),
{
    if s.len() > 0 {
        lemma_seq_sum_nonnegative(s.drop_last());
    }
}

fn sum_slot(values: &Vec<u64>) -> (total: u64)
    ensures
        total == wrap64(seq_sum(values@)),
{
    let n = values.len();
    let mut total: u64 = 0;
    let mut j: usize = 0;
    while j < n
        invariant
            j <= n,
            n == values@.len(),
            total == wrap64(seq_sum(values@.take(j as int))),
        decreases n - j,
    {
        proof {
            assert(values@.take(j + 1).drop_last() =~= values@.take(j as int));
            lemma_seq_sum_nonnegative(values@.take(j as int));
        }
        total = total.wrapping_add(values[j]);
        j += 1;
    }
    proof {
        assert(values@.take(n as int) =~= values@);
    }
    total
}

/// Sums the per-CPU values of every counter into one snapshot, in the order
/// of `reads`. A counter that could not be read counts as zero. Nothing is
/// reset and nothing fails; a sum past the 64-bit range wraps around.
pub fn snapshot(reads: &Vec<Option<Vec<u64>>>) -> (counts: Vec<u64>)
    ensures
        counts@ == counts_of(reads@),
        forall|i: int|
            0 <= i < reads@.len() && slot_total(#[trigger] reads@[i]) <= u64::MAX ==> counts@[i]
                == slot_total(reads@[i]),
{
    let n = reads.len();
    let mut counts: Vec<u64> = Vec::new();
    let mut i: usize = 0;
    while i < n
        invariant
            i <= n,
            n == reads@.len(),
            counts@.len() == i,
            forall|k: int| 0 <= k < i ==> counts@[k] == wrap64(slot_total(reads@[k])),
        decreases n - i,
    {
        let total = match &reads[i] {
            Some(values) => sum_slot(values),
            None => 0,
        };
        counts.push(total);
        i += 1;
    }
    proof {
        assert(counts@ =~= counts_of(reads@));
        assert forall|k: int|
            0 <= k < reads@.len() && slot_total(#[trigger] reads@[k]) <= u64::MAX implies counts@[k]
            == slot_total(reads@[k]) by {
            match reads@[k] {
                Some(values) => lemma_seq_sum_nonnegative(values@),
                None => {},
            }
        }
    }
    counts
}

/// The count of a counter in a snapshot is the arithmetic sum of its per-CPU
/// values, for any number of CPUs, as long as that sum is one that a 64-bit
/// counter can hold.
pub proof fn lemma_counts_are_sums(reads: Seq<Option<Vec<u64>>>, i: int)
    requires
        0 <= i < reads.len(),
        slot_total(reads[i]) <= u64::MAX,
    ensures
        counts_of(reads)[i] == slot_total(reads[i]),
{
    match reads[i] {
        Some(values) => lemma_seq_sum_nonnegative(values@),
        None => {},
    }
}

/// The sum over the CPUs grows by what one more CPU contributes.
pub proof fn lemma_seq_sum_push(s: Seq<u64>, x: u64)
    ensures
        seq_sum(s.push(x)) == seq_sum(s) + x,
{
    assert(s.push(x).drop_last() =~= s);
}

/// Replacing one CPU's value changes the sum by the difference.
pub proof fn lemma_seq_sum_update(s: Seq<u64>, cpu: int, x: u64)
    requires
        0 <= cpu < s.len(),
    ensures
        seq_sum(s.update(cpu, x)) == seq_sum(s) - s[cpu] + x,
    decreases s.len(),
{
    let t = s.update(cpu, x);
    if cpu == s.len() - 1 {
        assert(t.drop_last() =~= s.drop_last());
    } else {
        assert(t.drop_last() =~= s.drop_last().update(cpu, x));
        lemma_seq_sum_update(s.drop_last(), cpu, x);
    }
}

/// What a table that is kept CPU by CPU holds for one counter: that
/// counter's value on every CPU.
pub open spec fn column(table: Seq<Seq<u64>>, index: int) -> Seq<u64> {
    Seq::new(table.len(), |cpu: int| table[cpu][index])
}

} // verus!
