//! The monitor of one process: it brings the probe up, then turns every poll
//! of the counters into at most one normalised vector.
//!
//! The monitor does no I/O. Its caller performs each step of the bring-up,
//! reads the counters once per interval, sends what a tick hands back, and
//! tells the monitor how each of these went.

use crate::bridge::{
    counts_of, next_step, progress_after, snapshot, ErrorKind, LoadProgress, LoadStep, MonitorError,
};
use crate::clock::duration_nanos;
use crate::process_data::{DataProcessor, DiffState, Differentiator, Normalizer};
use crate::rate::{normalized, rates, NormalizedVector, Ratios};
use std::time::Duration;
use vstd::prelude::*;

verus! {

/// Where a monitor stands in its life. It only ever moves down this list.
#[derive(Clone, Copy, Debug, PartialEq, Eq, Structural)]
pub enum Phase {
    /// Made, the probe not yet attached.
    Idle,
    /// The probe is attached and counts.
    Loaded,
    /// The counters are being polled.
    Running,
    /// Cancelled, failed or abandoned by its consumer. Nothing follows.
    Stopped,
}

impl Phase {
    /// The place of a phase in the order of a monitor's life.
    pub open spec fn rank(self) -> int {
        match self {
            Phase::Idle => 0,
            Phase::Loaded => 1,
            Phase::Running => 2,
            Phase::Stopped => 3,
        }
    }
}

/// What a monitor is to its callers.
pub struct MonitorState {
    /// The process whose syscalls are counted.
    pub pid: u32,
    /// The polling interval that the monitor was made with.
    pub rate: Duration,
    pub phase: Phase,
    /// The step of the bring-up that comes next while the monitor is idle.
    pub pending: LoadStep,
    /// The differentiator: the polling interval and the snapshot that the
    /// next one is measured against.
    pub differ: DiffState,
    /// The snapshot of the last tick that emitted; empty before the first.
    pub last: Seq<u64>,
}

impl MonitorState {
    /// A monitor as it is made.
    pub open spec fn fresh(pid: u32, rate: Duration) -> MonitorState {
        MonitorState {
            pid,
            rate,
            phase: Phase::Idle,
            pending: LoadStep::RaiseMemlock,
            differ: DiffState::fresh(duration_nanos(rate) as int),
            last: Seq::empty(),
        }
    }

    /// The rates are taken over the polling interval.
    pub open spec fn paced(self) -> bool {
        self.differ.interval == duration_nanos(self.rate)
    }

    /// After the pending step of the bring-up has been performed.
    pub open spec fn stepped(self, succeeded: bool) -> MonitorState {
        match progress_after(self.pending, succeeded) {
            LoadProgress::Next(step) => MonitorState { pending: step, ..self },
            LoadProgress::Loaded => MonitorState { phase: Phase::Loaded, ..self },
            LoadProgress::Failed(_) => MonitorState { phase: Phase::Stopped, ..self },
        }
    }

    /// After polling has begun.
    pub open spec fn started(self) -> MonitorState {
        MonitorState { phase: Phase::Running, ..self }
    }

    /// A tick emits exactly where its snapshot differs from the one last
    /// emitted. The raw counts are compared, not what is derived from them.
    pub open spec fn emits(self, counts: Seq<u64>) -> bool {
        counts != self.last
    }

    /// What a tick with the snapshot `counts` hands to the consumer.
    pub open spec fn emitted(self, counts: Seq<u64>) -> Option<Ratios> {
        if self.emits(counts) {
            Some(normalized(self.differ.output(counts)))
        } else {
            None
        }
    }

    /// After a tick with the snapshot `counts`. A tick that emits nothing
    /// changes nothing.
    pub open spec fn ticked(self, counts: Seq<u64>) -> MonitorState {
        if self.emits(counts) {
            MonitorState { differ: self.differ.fed(counts), last: counts, ..self }
        } else {
            self
        }
    }

    /// After an attempt to follow another process.
    pub open spec fn retargeted(self, pid: u32, written: bool) -> MonitorState {
        if written {
            MonitorState { pid, ..self }
        } else {
            MonitorState { phase: Phase::Stopped, ..self }
        }
    }

    /// After an attempt to hand a vector to the consumer. A consumer that
    /// is gone ends the session; it is no fault of the monitor.
    pub open spec fn sent(self, delivered: bool) -> MonitorState {
        if delivered {
            self
        } else {
            self.stopped()
        }
    }

    /// After the end of the session.
    pub open spec fn stopped(self) -> MonitorState {
        MonitorState { phase: Phase::Stopped, ..self }
    }
}

/// The monitor of one process.
pub struct ProcMon {
    monitored_pid: u32,
    polling_rate: Duration,
    phase: Phase,
    pending: LoadStep,
    differentiator: Differentiator,
    prev: Vec<u64>,
}

impl View for ProcMon {
    type V = MonitorState;

    closed spec fn view(&self) -> MonitorState {
        MonitorState {
            pid: self.monitored_pid,
            rate: self.polling_rate,
            phase: self.phase,
            pending: self.pending,
            differ: self.differentiator@,
            last: self.prev@,
        }
    }
}

impl ProcMon {
    /// A monitor for `monitored_pid`, polled every `polling_rate`. Nothing
    /// is attached yet.
    pub fn new(monitored_pid: u32, polling_rate: Duration) -> (monitor: Self)
        ensures
            monitor@ == MonitorState::fresh(monitored_pid, polling_rate),
    {
        let differentiator = Differentiator::new(&polling_rate);
        ProcMon {
            monitored_pid,
            polling_rate,
            phase: Phase::Idle,
            pending: LoadStep::RaiseMemlock,
            differentiator,
            prev: Vec::new(),
        }
    }

    pub fn monitored_pid(&self) -> (pid: u32)
        ensures
            pid == self@.pid,
    {
        self.monitored_pid
    }

    pub fn polling_rate(&self) -> (rate: Duration)
        ensures
            rate == self@.rate,
    {
        self.polling_rate
    }

    pub fn phase(&self) -> (phase: Phase)
        ensures
            phase == self@.phase,
    {
        self.phase
    }

    /// The width of the widest table that `tick` takes next.
    pub fn width(&self) -> (n: usize)
        ensures
            n == self@.differ.baseline.len(),
    {
        self.differentiator.width()
    }

    /// The step of the bring-up to perform next.
    pub fn pending_step(&self) -> (step: LoadStep)
        ensures
            step == self@.pending,
    {
        self.pending
    }

    /// Takes note of how the pending step of the bring-up went and says what
    /// follows. The last step leaves the monitor loaded; a fatal failure
    /// ends the session, and there is no second attempt.
    pub fn load_epbf(&mut self, succeeded: bool) -> (progress: LoadProgress)
        requires
            old(self)@.phase == Phase::Idle,
        ensures
            progress == progress_after(old(self)@.pending, succeeded),
            final(self)@ == old(self)@.stepped(succeeded),
    {
        let progress = next_step(self.pending, succeeded);
        match progress {
            LoadProgress::Next(step) => {
                self.pending = step;
            },
            LoadProgress::Loaded => {
                self.phase = Phase::Loaded;
            },
            LoadProgress::Failed(_) => {
                self.phase = Phase::Stopped;
            },
        }
        progress
    }

    /// Begins polling.
    pub fn run(&mut self)
        requires
            old(self)@.phase == Phase::Loaded,
        ensures
            final(self)@ == old(self)@.started(),
    {
        self.phase = Phase::Running;
    }

    /// One poll. `reads` holds, for every counter in order, its per-CPU
    /// values, or nothing where the counter could not be read. The snapshot
    /// is their sum. Where it differs from the snapshot last emitted, the
    /// normalised rates since then come back and the snapshot is remembered;
    /// where it does not, nothing comes back and nothing changes.
    pub fn tick(&mut self, reads: &Vec<Option<Vec<u64>>>) -> (out: Option<NormalizedVector>)
        requires
            old(self)@.phase == Phase::Running,
            reads@.len() <= old(self)@.differ.baseline.len(),
        ensures
            final(self)@ == old(self)@.ticked(counts_of(reads@)),
            match out {
                Some(vector) => old(self)@.emitted(counts_of(reads@)) == Some(vector@),
                None => old(self)@.emitted(counts_of(reads@)) is None,
            },
    {
        let counts = snapshot(reads);
        if !same_counts(&counts, &self.prev) {
            let rates = self.differentiator.process(counts.as_slice());
            let vector = Normalizer.process(&rates);
            self.prev = counts;
            Some(vector)
        } else {
            None
        }
    }

    /// Follows another process from now on, the probe staying where it is.
    /// `written` says whether the new pid reached the pid cell; where it did
    /// not, the session is over.
    pub fn retarget(&mut self, pid: u32, written: bool) -> (done: Result<(), MonitorError>)
        requires
            old(self)@.phase == Phase::Loaded || old(self)@.phase == Phase::Running,
        ensures
            final(self)@ == old(self)@.retargeted(pid, written),
            written ==> done is Ok,
            !written ==> done == Err::<(), MonitorError>(
                MonitorError { kind: ErrorKind::ConfigError, step: LoadStep::PublishPid },
            ),
    {
        if written {
            self.monitored_pid = pid;
            Ok(())
        } else {
            self.phase = Phase::Stopped;
            Err(MonitorError { kind: ErrorKind::ConfigError, step: LoadStep::PublishPid })
        }
    }

    /// Takes note of whether the vector of the last tick reached the
    /// consumer, and says whether polling goes on. It does unless the
    /// consumer is gone, which ends the session.
    pub fn delivery(&mut self, delivered: bool) -> (go_on: bool)
        requires
            old(self)@.phase == Phase::Running,
        ensures
            final(self)@ == old(self)@.sent(delivered),
            go_on == delivered,
    {
        if !delivered {
            self.phase = Phase::Stopped;
        }
        delivered
    }

    /// Ends the session, whatever its phase: this is how polling is
    /// cancelled.
    pub fn stop(&mut self)
        ensures
            final(self)@ == old(self)@.stopped(),
    {
        self.phase = Phase::Stopped;
    }
}

/// Whether two snapshots hold the same counts.
fn same_counts(a: &Vec<u64>, b: &Vec<u64>) -> (same: bool)
    ensures
        same == (a@ == b@),
{
    if a.len() != b.len() {
        return false;
    }
    let n = a.len();
    let mut i: usize = 0;
    while i < n
        invariant
            i <= n,
            n == a@.len(),
            n == b@.len(),
            forall|j: int| 0 <= j < i ==> a@[j] == b@[j],
        decreases n - i,
    {
        if a[i] != b[i] {
            return false;
        }
        i += 1;
    }
    assert(a@ =~= b@);
    true
}

/// A snapshot equal to the one last emitted emits nothing and changes
/// nothing.
pub proof fn lemma_unchanged_is_silent(s: MonitorState, counts: Seq<u64>)
    requires
        counts == s.last,
    ensures
        s.emitted(counts) is None,
        s.ticked(counts) == s,
{
}

/// Of two ticks in a row with the same snapshot, the second emits nothing,
/// whether or not the first did.
pub proof fn lemma_repeat_is_silent(s: MonitorState, counts: Seq<u64>)
    ensures
        s.ticked(counts).emitted(counts) is None,
        s.ticked(counts).ticked(counts) == s.ticked(counts),
{
}

/// A tick that emits hands out the normalised rates between the snapshot that
/// the differentiator last saw and the new one, and both memories then hold
/// the new snapshot.
pub proof fn lemma_emitting_tick(s: MonitorState, counts: Seq<u64>)
    requires
        counts != s.last,
    ensures
        s.emitted(counts) == Some(normalized(rates(s.differ.baseline, counts, s.differ.interval))),
        s.ticked(counts).last == counts,
        s.ticked(counts).differ.baseline == counts,
{
}

/// No step of a monitor's life leads back: whatever is done to it in a
/// phase that allows it, the phase stays or moves on, and a tick never
/// changes it.
pub proof fn lemma_phase_only_advances(
    s: MonitorState,
    succeeded: bool,
    counts: Seq<u64>,
    pid: u32,
    written: bool,
    delivered: bool,
)
    ensures
        s.phase == Phase::Idle ==> s.stepped(succeeded).phase.rank() >= s.phase.rank(),
        s.phase == Phase::Loaded ==> s.started().phase.rank() > s.phase.rank(),
        s.ticked(counts).phase == s.phase,
        s.phase == Phase::Loaded || s.phase == Phase::Running ==> s.retargeted(
            pid,
            written,
        ).phase.rank() >= s.phase.rank(),
        s.sent(delivered).phase.rank() >= s.phase.rank(),
        s.stopped().phase.rank() >= s.phase.rank(),
        s.phase == Phase::Stopped ==> s.stopped() == s,
{
}

/// The rates of a monitor are always taken over its polling interval.
pub proof fn lemma_paced_is_kept(
    s: MonitorState,
    succeeded: bool,
    counts: Seq<u64>,
    pid: u32,
    written: bool,
    delivered: bool,
)
    requires
        s.paced(),
    ensures
        MonitorState::fresh(pid, s.rate).paced(),
        s.stepped(succeeded).paced(),
        s.started().paced(),
        s.ticked(counts).paced(),
        s.retargeted(pid, written).paced(),
        s.sent(delivered).paced(),
        s.stopped().paced(),
{
}

} // verus!
