//! The load of one task as decisions: what the task sends next and which
//! outcomes count. The caller performs each operation, times it, and hands
//! the outcome back. At the end of a run the tallies of all tasks combine
//! into the run's totals.

use vstd::prelude::*;

use crate::adapter::{
    is_load_event, is_load_read, load_event, load_read, ConnectionParams, EventData, ReadRequest,
};
use crate::metrics::{clamp_latency, clamped_latency, LatencyRecorder, RawSample, RunClock, SampleView};
use crate::selection::{is_zipf, names_zipf, task_seed, StreamSelector};
use crate::workload::Workload;

verus! {

/// What a task does in each step.
#[derive(Debug, Clone, Copy, PartialEq, Eq, Structural)]
pub enum Operation {
    Append,
    Read,
}

pub open spec fn op_name(op: Operation) -> Seq<char> {
    match op {
        Operation::Append => seq!['a', 'p', 'p', 'e', 'n', 'd'],
        Operation::Read => seq!['r', 'e', 'a', 'd'],
    }
}

/// The name of an operation in samples: `"append"` or `"read"`.
pub fn op_string(op: Operation) -> (r: String)
    ensures
        r@ == op_name(op),
{
    proof {
        reveal_strlit("append");
        reveal_strlit("read");
        assert("append"@ =~= op_name(Operation::Append));
        assert("read"@ =~= op_name(Operation::Read));
    }
    match op {
        Operation::Append => String::from_str("append"),
        Operation::Read => String::from_str("read"),
    }
}

/// The views of a sequence of samples.
pub open spec fn sample_views(s: Seq<RawSample>) -> Seq<SampleView> {
    s.map_values(|x: RawSample| x@)
}

/// What one task has done so far: its stream picks, its latencies, and the
/// samples of the outcomes that counted.
pub struct TaskState {
    pub operation: Operation,
    pub selector: StreamSelector,
    pub clock: RunClock,
    pub event_size_bytes: usize,
    /// Latencies of the counted outcomes.
    pub recorder: LatencyRecorder,
    /// Counted operations that succeeded.
    pub ok_ops: u64,
    /// Counted operations that failed.
    pub failed_ops: u64,
    /// Events of the counted successful operations: one per append, the
    /// events returned per read.
    pub events: u64,
    /// One sample per counted outcome, in order.
    pub samples: Vec<RawSample>,
    /// When each sample was captured, in microseconds since the load started.
    pub captured_at: Ghost<Seq<u128>>,
    /// Successful reads whose events are not matched one for one by a
    /// counted operation: counted reads that returned other than one event,
    /// and reads outside the window that returned any.
    pub unmatched_reads: Ghost<nat>,
}

impl TaskState {
    pub open spec fn samples_view(&self) -> Seq<SampleView> {
        sample_views(self.samples@)
    }

    /// The invariant of a task.
    pub open spec fn wf(&self) -> bool {
        &&& self.selector.spec_unique_streams() > 0
        &&& self.recorder.resizes()
        &&& self.recorder.count() == self.ok_ops + self.failed_ops
        &&& self.samples@.len() == self.ok_ops + self.failed_ops
        &&& self.captured_at@.len() == self.samples@.len()
        &&& forall|i: int|
            0 <= i < self.captured_at@.len() ==> self.clock.spec_in_window(
                #[trigger] self.captured_at@[i],
            )
        &&& forall|i: int|
            0 <= i < self.samples@.len() ==> (#[trigger] self.samples@[i]).latency_us >= 1
                && self.samples@[i].op@ == op_name(self.operation)
        &&& self.operation == Operation::Append ==> self.unmatched_reads@ == 0
        &&& self.unmatched_reads@ == 0 ==> self.events == self.ok_ops
    }

    /// Whether an outcome at `now_us` with `items` events counts: it falls in
    /// the measurement window and the tallies have room for it.
    pub open spec fn counts(&self, now_us: u128, ok: bool, items: u64) -> bool {
        &&& self.clock.spec_in_window(now_us)
        &&& self.ok_ops + self.failed_ops < u64::MAX
        &&& ok ==> self.events + items <= u64::MAX
    }

    /// Whether a successful read at `now_us` outside the measurement window
    /// still adds its `items` events: a read's events count wherever it
    /// ends, where the tally has room.
    pub open spec fn tallies_outside(&self, now_us: u128, ok: bool, items: u64) -> bool {
        &&& !self.clock.spec_in_window(now_us)
        &&& self.operation == Operation::Read
        &&& ok
        &&& self.events + items <= u64::MAX
    }

    /// How `post` follows from `pre` when an outcome is handed in.
    pub open spec fn observed(
        pre: TaskState,
        post: TaskState,
        now_us: u128,
        t_ms: u128,
        latency_us: u64,
        ok: bool,
        items: u64,
    ) -> bool {
        if pre.counts(now_us, ok, items) {
            &&& post.samples_view() == pre.samples_view().push(
                SampleView {
                    t_ms,
                    op: op_name(pre.operation),
                    latency_us: clamped_latency(latency_us),
                    ok,
                },
            )
            &&& post.captured_at@ == pre.captured_at@.push(now_us)
            &&& post.ok_ops == pre.ok_ops + if ok { 1int } else { 0int }
            &&& post.failed_ops == pre.failed_ops + if ok { 0int } else { 1int }
            &&& post.events == pre.events + if ok { items as int } else { 0int }
            &&& post.recorder.count() == pre.recorder.count() + 1
            &&& post.recorder.holds(clamped_latency(latency_us))
        } else if pre.tallies_outside(now_us, ok, items) {
            &&& post.events == pre.events + items
            &&& post.samples_view() == pre.samples_view()
            &&& post.captured_at == pre.captured_at
            &&& post.ok_ops == pre.ok_ops
            &&& post.failed_ops == pre.failed_ops
            &&& post.recorder == pre.recorder
        } else {
            post == pre
        }
    }

    /// The parts of a task that its steps leave alone.
    pub open spec fn same_setup(pre: TaskState, post: TaskState) -> bool {
        &&& post.operation == pre.operation
        &&& post.clock == pre.clock
        &&& post.event_size_bytes == pre.event_size_bytes
        &&& post.selector.spec_unique_streams() == pre.selector.spec_unique_streams()
        &&& post.selector.spec_heavy_tail() == pre.selector.spec_heavy_tail()
        &&& post.selector.spec_seed() == pre.selector.spec_seed()
    }

    /// Whether a task has done nothing yet.
    pub open spec fn fresh(&self) -> bool {
        &&& self.ok_ops == 0
        &&& self.failed_ops == 0
        &&& self.events == 0
        &&& self.samples@.len() == 0
    }

    fn start(
        operation: Operation,
        selector: StreamSelector,
        clock: RunClock,
        event_size_bytes: usize,
    ) -> (r: TaskState)
        requires
            selector.spec_unique_streams() > 0,
        ensures
            r.wf(),
            r.fresh(),
            r.operation == operation,
            r.clock == clock,
            r.event_size_bytes == event_size_bytes,
            r.selector == selector,
    {
        TaskState {
            operation,
            selector,
            clock,
            event_size_bytes,
            recorder: LatencyRecorder::new(),
            ok_ops: 0,
            failed_ops: 0,
            events: 0,
            samples: Vec::new(),
            captured_at: Ghost(Seq::empty()),
            unmatched_reads: Ghost(0),
        }
    }

    /// Whether the task starts another operation at `now_us`.
    pub fn running(&self, now_us: u128) -> (r: bool)
        ensures
            r == (now_us < self.clock.end_at_us),
    {
        self.clock.running(now_us)
    }

    /// The next event of a writer: to a stream that the selector picks.
    pub fn next_append(&mut self) -> (e: EventData)
        requires
            old(self).wf(),
            old(self).operation == Operation::Append,
        ensures
            final(self).wf(),
            TaskState::same_setup(*old(self), *final(self)),
            final(self).samples_view() == old(self).samples_view(),
            final(self).ok_ops == old(self).ok_ops,
            final(self).failed_ops == old(self).failed_ops,
            final(self).events == old(self).events,
            exists|idx: nat|
                idx < old(self).selector.spec_unique_streams() && is_load_event(
                    e,
                    idx,
                    old(self).event_size_bytes as nat,
                ),
    {
        let idx = self.selector.next_index();
        load_event(idx, self.event_size_bytes)
    }

    /// The next read of a reader: of a stream that the selector picks.
    pub fn next_read(&mut self) -> (r: ReadRequest)
        requires
            old(self).wf(),
            old(self).operation == Operation::Read,
        ensures
            final(self).wf(),
            TaskState::same_setup(*old(self), *final(self)),
            final(self).samples_view() == old(self).samples_view(),
            final(self).ok_ops == old(self).ok_ops,
            final(self).failed_ops == old(self).failed_ops,
            final(self).events == old(self).events,
            exists|idx: nat| idx < old(self).selector.spec_unique_streams() && is_load_read(r, idx),
    {
        let idx = self.selector.next_index();
        load_read(idx)
    }

    fn observe(&mut self, now_us: u128, t_ms: u128, latency_us: u64, ok: bool, items: u64) -> (counted: bool)
        requires
            old(self).wf(),
            old(self).operation == Operation::Append ==> items == 1,
        ensures
            final(self).wf(),
            counted == old(self).counts(now_us, ok, items),
            TaskState::observed(*old(self), *final(self), now_us, t_ms, latency_us, ok, items),
            TaskState::same_setup(*old(self), *final(self)),
            final(self).selector == old(self).selector,
    {
        if !self.clock.in_window(now_us) {
            if self.operation == Operation::Read && ok && self.events <= u64::MAX - items {
                self.events = self.events + items;
                if items != 0 {
                    self.unmatched_reads = Ghost(self.unmatched_reads@ + 1);
                }
            }
            return false;
        }
        if (self.ok_ops as u128) + (self.failed_ops as u128) >= u64::MAX as u128 || (ok
            && self.events > u64::MAX - items) {
            return false;
        }
        let recorded = self.recorder.record(latency_us);
        assert(recorded);
        let sample = RawSample {
            t_ms,
            op: op_string(self.operation),
            latency_us: clamp_latency(latency_us),
            ok,
        };
        let ghost pre_samples = self.samples@;
        self.samples.push(sample);
        proof {
            assert(sample_views(self.samples@) =~= sample_views(pre_samples).push(sample@));
            self.captured_at = Ghost(self.captured_at@.push(now_us));
            if ok && items != 1 {
                self.unmatched_reads = Ghost(self.unmatched_reads@ + 1);
            }
        }
        if ok {
            self.ok_ops = self.ok_ops + 1;
            self.events = self.events + items;
        } else {
            self.failed_ops = self.failed_ops + 1;
        }
        assert forall|i: int| 0 <= i < self.samples@.len() implies (
        #[trigger] self.samples@[i]).latency_us >= 1 && self.samples@[i].op@ == op_name(
            self.operation,
        ) by {
            if i < pre_samples.len() {
                assert(self.samples@[i] == pre_samples[i]);
            }
        }
        true
    }

    /// Hands in the outcome of an append that ended at `now_us` (microseconds
    /// since the load started), at wall-clock `t_ms`, after `latency_us`.
    /// Returns whether it counted: it does where it falls in the measurement
    /// window (and the tallies have room).
    pub fn observe_append(&mut self, now_us: u128, t_ms: u128, latency_us: u64, ok: bool) -> (counted: bool)
        requires
            old(self).wf(),
            old(self).operation == Operation::Append,
        ensures
            final(self).wf(),
            counted == old(self).counts(now_us, ok, 1),
            TaskState::observed(*old(self), *final(self), now_us, t_ms, latency_us, ok, 1),
            TaskState::same_setup(*old(self), *final(self)),
            final(self).selector == old(self).selector,
    {
        self.observe(now_us, t_ms, latency_us, ok, 1)
    }

    /// Hands in the outcome of a read: `Some(n)` where it returned `n` events,
    /// `None` where it failed. Returns whether it counted: its sample and
    /// latency do only inside the measurement window, while the events of a
    /// successful read add to the task's events wherever it ends.
    pub fn observe_read(&mut self, now_us: u128, t_ms: u128, latency_us: u64, result: Option<u64>) -> (counted: bool)
        requires
            old(self).wf(),
            old(self).operation == Operation::Read,
        ensures
            final(self).wf(),
            counted == old(self).counts(now_us, result is Some, result.unwrap_or(0)),
            TaskState::observed(
                *old(self),
                *final(self),
                now_us,
                t_ms,
                latency_us,
                result is Some,
                result.unwrap_or(0),
            ),
            TaskState::same_setup(*old(self), *final(self)),
            final(self).selector == old(self).selector,
    {
        match result {
            Some(n) => self.observe(now_us, t_ms, latency_us, true, n),
            None => self.observe(now_us, t_ms, latency_us, false, 0),
        }
    }
}

/// Counted successful operations of the tasks.
pub open spec fn sum_ok(s: Seq<TaskState>) -> nat
    decreases s.len(),
{
    if s.len() == 0 {
        0
    } else {
        sum_ok(s.drop_last()) + s.last().ok_ops as nat
    }
}

/// Counted failed operations of the tasks.
pub open spec fn sum_failed(s: Seq<TaskState>) -> nat
    decreases s.len(),
{
    if s.len() == 0 {
        0
    } else {
        sum_failed(s.drop_last()) + s.last().failed_ops as nat
    }
}

/// Events that the tasks of `op` counted.
pub open spec fn sum_events(s: Seq<TaskState>, op: Operation) -> nat
    decreases s.len(),
{
    if s.len() == 0 {
        0
    } else {
        sum_events(s.drop_last(), op) + if s.last().operation == op {
            s.last().events as nat
        } else {
            0
        }
    }
}

/// Counted successful reads of the tasks that returned other than one event.
pub open spec fn sum_unmatched(s: Seq<TaskState>) -> nat
    decreases s.len(),
{
    if s.len() == 0 {
        0
    } else {
        sum_unmatched(s.drop_last()) + s.last().unmatched_reads@
    }
}

/// The samples of the tasks, task after task.
pub open spec fn all_samples(s: Seq<TaskState>) -> Seq<SampleView>
    decreases s.len(),
{
    if s.len() == 0 {
        Seq::empty()
    } else {
        all_samples(s.drop_last()) + s.last().samples_view()
    }
}

/// Whether the totals of the tasks fit the counters of a run.
pub open spec fn totals_fit(s: Seq<TaskState>) -> bool {
    &&& sum_ok(s) + sum_failed(s) <= u64::MAX
    &&& sum_events(s, Operation::Append) <= u64::MAX
    &&& sum_events(s, Operation::Read) <= u64::MAX
}

proof fn lemma_sums_prefix(s: Seq<TaskState>, k: int)
    requires
        0 <= k <= s.len(),
    ensures
        sum_ok(s.take(k)) <= sum_ok(s),
        sum_failed(s.take(k)) <= sum_failed(s),
        sum_events(s.take(k), Operation::Append) <= sum_events(s, Operation::Append),
        sum_events(s.take(k), Operation::Read) <= sum_events(s, Operation::Read),
    decreases s.len() - k,
{
    if k == s.len() {
        assert(s.take(k) =~= s);
    } else {
        lemma_sums_prefix(s, k + 1);
        assert(s.take(k + 1).drop_last() =~= s.take(k));
    }
}

/// The totals of a run: all tasks' tallies, latencies and samples together.
pub struct RunTotals {
    pub clock: RunClock,
    pub recorder: LatencyRecorder,
    pub events_written: u64,
    pub events_read: u64,
    pub ok_ops: u64,
    pub failed_ops: u64,
    pub samples: Vec<RawSample>,
    pub captured_at: Ghost<Seq<u128>>,
    pub unmatched_reads: Ghost<nat>,
}

impl RunTotals {
    pub open spec fn samples_view(&self) -> Seq<SampleView> {
        sample_views(self.samples@)
    }

    /// The invariant of a run's totals.
    pub open spec fn wf(&self) -> bool {
        &&& self.recorder.resizes()
        &&& self.recorder.count() == self.ok_ops + self.failed_ops
        &&& self.samples@.len() == self.ok_ops + self.failed_ops
        &&& self.captured_at@.len() == self.samples@.len()
        &&& forall|i: int|
            0 <= i < self.captured_at@.len() ==> self.clock.spec_in_window(
                #[trigger] self.captured_at@[i],
            )
        &&& forall|i: int|
            0 <= i < self.samples@.len() ==> (#[trigger] self.samples@[i]).latency_us >= 1 && (
            self.samples@[i].op@ == op_name(Operation::Append) || self.samples@[i].op@
                == op_name(Operation::Read))
        &&& self.unmatched_reads@ == 0 ==> self.events_written + self.events_read == self.ok_ops
    }

    /// Combines the tasks of a run that share one clock. `None` where the
    /// totals do not fit the run's counters.
    pub fn combine(tasks: Vec<TaskState>, clock: RunClock) -> (r: Option<RunTotals>)
        requires
            forall|i: int| 0 <= i < tasks@.len() ==> (#[trigger] tasks@[i]).wf() && tasks@[i].clock == clock,
        ensures
            r is Some <==> totals_fit(tasks@),
            r matches Some(t) ==> {
                &&& t.wf()
                &&& t.clock == clock
                &&& t.ok_ops == sum_ok(tasks@)
                &&& t.failed_ops == sum_failed(tasks@)
                &&& t.events_written == sum_events(tasks@, Operation::Append)
                &&& t.events_read == sum_events(tasks@, Operation::Read)
                &&& t.unmatched_reads@ == sum_unmatched(tasks@)
                &&& t.samples_view() == all_samples(tasks@)
            },
    {
        let ghost all = tasks@;
        let mut rest = tasks;
        let mut totals = RunTotals {
            clock,
            recorder: LatencyRecorder::new(),
            events_written: 0,
            events_read: 0,
            ok_ops: 0,
            failed_ops: 0,
            samples: Vec::new(),
            captured_at: Ghost(Seq::empty()),
            unmatched_reads: Ghost(0),
        };
        let mut i: usize = 0;
        let n = rest.len();
        assert(all.take(0) =~= Seq::<TaskState>::empty());
        assert(sample_views(totals.samples@) =~= Seq::<SampleView>::empty());
        while rest.len() > 0
            invariant
                i <= all.len(),
                all.len() == n,
                all == tasks@,
                rest@ == all.skip(i as int),
                sum_ok(all.take(i as int)) + sum_failed(all.take(i as int)) <= u64::MAX,
                forall|k: int| 0 <= k < all.len() ==> (#[trigger] all[k]).wf() && all[k].clock == clock,
                totals.wf(),
                totals.clock == clock,
                totals.ok_ops == sum_ok(all.take(i as int)),
                totals.failed_ops == sum_failed(all.take(i as int)),
                totals.events_written == sum_events(all.take(i as int), Operation::Append),
                totals.events_read == sum_events(all.take(i as int), Operation::Read),
                totals.unmatched_reads@ == sum_unmatched(all.take(i as int)),
                totals.samples_view() == all_samples(all.take(i as int)),
            decreases rest@.len(),
        {
            let mut t = rest.remove(0);
            assert(t == all[i as int]);
            let ghost pre = all.take(i as int);
            let ghost next = all.take(i + 1);
            assert(next.drop_last() =~= pre);
            assert(next.last() == t);
            assert(sum_ok(next) == sum_ok(pre) + t.ok_ops);
            assert(sum_failed(next) == sum_failed(pre) + t.failed_ops);
            assert(sum_events(next, Operation::Append) == sum_events(pre, Operation::Append) + if t.operation == Operation::Append { t.events as nat } else { 0 });
            assert(sum_events(next, Operation::Read) == sum_events(pre, Operation::Read) + if t.operation == Operation::Read { t.events as nat } else { 0 });
            assert(sum_unmatched(next) == sum_unmatched(pre) + t.unmatched_reads@);
            assert(all_samples(next) == all_samples(pre) + t.samples_view());
            let ops = (totals.ok_ops as u128) + (totals.failed_ops as u128) + (t.ok_ops as u128)
                + (t.failed_ops as u128);
            let (written, read) = match t.operation {
                Operation::Append => (totals.events_written as u128 + t.events as u128, totals.events_read as u128),
                Operation::Read => (totals.events_written as u128, totals.events_read as u128 + t.events as u128),
            };
            if ops > u64::MAX as u128 || written > u64::MAX as u128 || read > u64::MAX as u128 {
                proof {
                    lemma_sums_prefix(all, i + 1);
                }
                return None;
            }
            let merged = totals.recorder.merge(&t.recorder);
            assert(merged);
            let ghost pre_samples = totals.samples@;
            let ghost task_samples = t.samples@;
            totals.samples.append(&mut t.samples);
            let ghost pre_captured = totals.captured_at@;
            totals.captured_at = Ghost(totals.captured_at@ + t.captured_at@);
            totals.unmatched_reads = Ghost(totals.unmatched_reads@ + t.unmatched_reads@);
            proof {
                assert(sample_views(totals.samples@) =~= sample_views(pre_samples) + sample_views(
                    task_samples,
                ));
                assert forall|k: int| 0 <= k < totals.captured_at@.len() implies clock.spec_in_window(
                    #[trigger] totals.captured_at@[k],
                ) by {
                    if k >= pre_captured.len() {
                        assert(totals.captured_at@[k] == t.captured_at@[k - pre_captured.len()]);
                    }
                }
                assert forall|k: int| 0 <= k < totals.samples@.len() implies (
                #[trigger] totals.samples@[k]).latency_us >= 1 && (totals.samples@[k].op@
                    == op_name(Operation::Append) || totals.samples@[k].op@ == op_name(
                    Operation::Read,
                )) by {
                    if k < pre_samples.len() {
                        assert(totals.samples@[k] == pre_samples[k]);
                    } else {
                        assert(totals.samples@[k] == task_samples[k - pre_samples.len()]);
                    }
                }
            }
            totals.ok_ops = totals.ok_ops + t.ok_ops;
            totals.failed_ops = totals.failed_ops + t.failed_ops;
            totals.events_written = written as u64;
            totals.events_read = read as u64;
            i = i + 1;
            assert(rest@ =~= all.skip(i as int));
        }
        assert(all.take(i as int) =~= all);
        Some(totals)
    }
}

/// How a run is invoked: the store's name, where its clients connect, and
/// the seed of the stream selection.
#[derive(Debug, Clone)]
pub struct RunOptions {
    pub adapter_name: String,
    pub conn: ConnectionParams,
    pub seed: u64,
}

/// Concurrent unconditional appends: one task per writer client, each
/// appending `event_size_bytes` zero bytes to the streams its selector picks.
pub struct ConcurrentWritersWorkflow {
    pub heavy_tail: bool,
    pub unique_streams: u64,
    pub event_size_bytes: usize,
    pub seed: u64,
}

impl ConcurrentWritersWorkflow {
    pub fn new(config: Workload, seed: u64) -> (r: Self)
        requires
            config.valid(),
        ensures
            r.heavy_tail == names_zipf(config.streams.distribution@),
            r.unique_streams == config.streams.unique_streams,
            r.event_size_bytes == config.event_size_bytes,
            r.seed == seed,
            r.unique_streams > 0,
    {
        ConcurrentWritersWorkflow {
            heavy_tail: is_zipf(config.streams.distribution.as_str()),
            unique_streams: config.streams.unique_streams,
            event_size_bytes: config.event_size_bytes,
            seed,
        }
    }

    /// The task of writer `task_index`, its selector seeded with the
    /// workflow's seed plus the index.
    pub fn task(&self, task_index: u64, clock: RunClock) -> (r: TaskState)
        requires
            self.unique_streams > 0,
        ensures
            r.wf(),
            r.fresh(),
            r.operation == Operation::Append,
            r.clock == clock,
            r.event_size_bytes == self.event_size_bytes,
            r.selector.spec_unique_streams() == self.unique_streams,
            r.selector.spec_heavy_tail() == self.heavy_tail,
            r.selector.spec_seed() == task_seed(self.seed, task_index),
    {
        let selector = StreamSelector::new(self.heavy_tail, self.unique_streams, self.seed, task_index);
        TaskState::start(Operation::Append, selector, clock, self.event_size_bytes)
    }

    /// One fresh task per client, with task indices `0..count`.
    pub fn tasks(&self, count: usize, clock: RunClock) -> (r: Vec<TaskState>)
        requires
            self.unique_streams > 0,
        ensures
            r@.len() == count,
            forall|i: int|
                0 <= i < count ==> (#[trigger] r@[i]).wf() && r@[i].fresh() && r@[i].operation
                    == Operation::Append && r@[i].clock == clock && r@[i].event_size_bytes == self.event_size_bytes
                    && r@[i].selector.spec_unique_streams() == self.unique_streams
                    && r@[i].selector.spec_heavy_tail() == self.heavy_tail
                    && r@[i].selector.spec_seed() == task_seed(self.seed, i as u64),
    {
        let mut v: Vec<TaskState> = Vec::new();
        let mut i: usize = 0;
        while i < count
            invariant
                self.unique_streams > 0,
                i <= count,
                v@.len() == i,
                forall|k: int|
                    0 <= k < i ==> (#[trigger] v@[k]).wf() && v@[k].fresh() && v@[k].operation
                        == Operation::Append && v@[k].clock == clock && v@[k].event_size_bytes == self.event_size_bytes
                        && v@[k].selector.spec_unique_streams() == self.unique_streams
                        && v@[k].selector.spec_heavy_tail() == self.heavy_tail
                        && v@[k].selector.spec_seed() == task_seed(self.seed, k as u64),
            decreases count - i,
        {
            v.push(self.task(i as u64, clock));
            i = i + 1;
        }
        v
    }
}

/// Concurrent reads: one task per reader client, each reading up to
/// `READ_BATCH` events of the streams its selector picks.
pub struct ConcurrentReadersWorkflow {
    pub heavy_tail: bool,
    pub unique_streams: u64,
    pub seed: u64,
}

impl ConcurrentReadersWorkflow {
    pub fn new(config: Workload, seed: u64) -> (r: Self)
        requires
            config.valid(),
        ensures
            r.heavy_tail == names_zipf(config.streams.distribution@),
            r.unique_streams == config.streams.unique_streams,
            r.seed == seed,
            r.unique_streams > 0,
    {
        ConcurrentReadersWorkflow {
            heavy_tail: is_zipf(config.streams.distribution.as_str()),
            unique_streams: config.streams.unique_streams,
            seed,
        }
    }

    /// The task of reader `task_index`, its selector seeded with the
    /// workflow's seed plus the index.
    pub fn task(&self, task_index: u64, clock: RunClock) -> (r: TaskState)
        requires
            self.unique_streams > 0,
        ensures
            r.wf(),
            r.fresh(),
            r.operation == Operation::Read,
            r.clock == clock,
            r.selector.spec_unique_streams() == self.unique_streams,
            r.selector.spec_heavy_tail() == self.heavy_tail,
            r.selector.spec_seed() == task_seed(self.seed, task_index),
    {
        let selector = StreamSelector::new(self.heavy_tail, self.unique_streams, self.seed, task_index);
        TaskState::start(Operation::Read, selector, clock, 0)
    }

    /// One fresh task per client, with task indices `0..count`.
    pub fn tasks(&self, count: usize, clock: RunClock) -> (r: Vec<TaskState>)
        requires
            self.unique_streams > 0,
        ensures
            r@.len() == count,
            forall|i: int|
                0 <= i < count ==> (#[trigger] r@[i]).wf() && r@[i].fresh() && r@[i].operation
                    == Operation::Read && r@[i].clock == clock
                    && r@[i].selector.spec_unique_streams() == self.unique_streams
                    && r@[i].selector.spec_heavy_tail() == self.heavy_tail
                    && r@[i].selector.spec_seed() == task_seed(self.seed, i as u64),
    {
        let mut v: Vec<TaskState> = Vec::new();
        let mut i: usize = 0;
        while i < count
            invariant
                self.unique_streams > 0,
                i <= count,
                v@.len() == i,
                forall|k: int|
                    0 <= k < i ==> (#[trigger] v@[k]).wf() && v@[k].fresh() && v@[k].operation
                        == Operation::Read && v@[k].clock == clock
                        && v@[k].selector.spec_unique_streams() == self.unique_streams
                        && v@[k].selector.spec_heavy_tail() == self.heavy_tail
                        && v@[k].selector.spec_seed() == task_seed(self.seed, k as u64),
            decreases count - i,
        {
            v.push(self.task(i as u64, clock));
            i = i + 1;
        }
        v
    }
}

/// Makes `ConcurrentWritersWorkflow`s; named `"concurrent_writers"`.
#[derive(Debug, Clone, Copy)]
pub struct ConcurrentWritersFactory;

impl ConcurrentWritersFactory {
    pub fn name(&self) -> (r: &'static str)
        ensures
            r@ == "concurrent_writers"@,
    {
        "concurrent_writers"
    }

    pub fn create(&self, config: Workload, seed: u64) -> (r: ConcurrentWritersWorkflow)
        requires
            config.valid(),
        ensures
            r.heavy_tail == names_zipf(config.streams.distribution@),
            r.unique_streams == config.streams.unique_streams,
            r.event_size_bytes == config.event_size_bytes,
            r.seed == seed,
    {
        ConcurrentWritersWorkflow::new(config, seed)
    }
}

/// Makes `ConcurrentReadersWorkflow`s; named `"concurrent_readers"`.
#[derive(Debug, Clone, Copy)]
pub struct ConcurrentReadersFactory;

impl ConcurrentReadersFactory {
    pub fn name(&self) -> (r: &'static str)
        ensures
            r@ == "concurrent_readers"@,
    {
        "concurrent_readers"
    }

    pub fn create(&self, config: Workload, seed: u64) -> (r: ConcurrentReadersWorkflow)
        requires
            config.valid(),
        ensures
            r.heavy_tail == names_zipf(config.streams.distribution@),
            r.unique_streams == config.streams.unique_streams,
            r.seed == seed,
    {
        ConcurrentReadersWorkflow::new(config, seed)
    }
}

/// The counts of a run's summary. Throughput is the fraction
/// `throughput_numerator / throughput_denominator` events per second.
#[derive(Debug, Clone, Copy, PartialEq, Eq, Structural)]
pub struct SummaryCounts {
    pub writers: usize,
    pub readers: usize,
    pub events_written: u64,
    pub events_read: u64,
    /// The declared measurement window, in seconds.
    pub duration_s: u64,
    /// Events written and read, times a thousand.
    pub throughput_numerator: u128,
    /// The window in milliseconds, at least one.
    pub throughput_denominator: u128,
}

impl SummaryCounts {
    /// The counts of a run of `wl` with totals `t`: throughput is the events
    /// written and read over the window, taken as at least a millisecond.
    pub fn of(wl: &Workload, t: &RunTotals) -> (r: SummaryCounts)
        ensures
            r.duration_s == wl.duration_seconds,
            r.writers == wl.writers,
            r.readers == wl.readers,
            r.events_written == t.events_written,
            r.events_read == t.events_read,
            r.throughput_numerator == (t.events_written + t.events_read) * 1000,
            r.throughput_denominator == if wl.duration_seconds == 0 {
                1
            } else {
                wl.duration_seconds * 1000
            },
    {
        let window_ms = (wl.duration_seconds as u128) * 1000;
        SummaryCounts {
            writers: wl.writers,
            readers: wl.readers,
            events_written: t.events_written,
            events_read: t.events_read,
            duration_s: wl.duration_seconds,
            throughput_numerator: ((t.events_written as u128) + (t.events_read as u128)) * 1000,
            throughput_denominator: if window_ms == 0 { 1 } else { window_ms },
        }
    }
}

/// Every sample that a task emits has a latency of at least one microsecond.
pub proof fn lemma_task_sample_latencies_positive(t: &TaskState)
    requires
        t.wf(),
    ensures
        forall|i: int| 0 <= i < t.samples@.len() ==> (#[trigger] t.samples@[i]).latency_us >= 1,
{
}

/// Every sample of a run was captured inside the measurement window: none
/// in the warmup before it or in the cooldown after it.
pub proof fn lemma_samples_in_window(t: &RunTotals)
    requires
        t.wf(),
    ensures
        forall|i: int|
            0 <= i < t.samples@.len() ==> t.clock.measurement_start_us <= #[trigger] t.captured_at@[i]
                <= t.clock.measurement_end_us,
{
}

/// Every sample of a run has a latency of at least one microsecond.
pub proof fn lemma_sample_latencies_positive(t: &RunTotals)
    requires
        t.wf(),
    ensures
        forall|i: int| 0 <= i < t.samples@.len() ==> (#[trigger] t.samples@[i]).latency_us >= 1,
{
}

/// The histogram of a run counts at least the events written and read and
/// at most those plus the failed operations, where no read left its events
/// unmatched: every successful read that returned events fell in the window
/// and returned exactly one (a read that returns none or several, or events
/// read outside the window, break the link between events and operations).
pub proof fn lemma_histogram_brackets_events(t: &RunTotals)
    requires
        t.wf(),
        t.unmatched_reads@ == 0,
    ensures
        t.events_written + t.events_read <= t.recorder.count(),
        t.recorder.count() <= t.events_written + t.events_read + t.failed_ops,
{
}

} // verus!
