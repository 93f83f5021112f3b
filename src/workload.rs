//! The declarative description of a benchmark run.

use vstd::prelude::*;

use crate::adapter::{is_load_event, load_event, EventData};

verus! {

/// How operations spread over streams.
#[derive(Debug, Clone)]
pub struct StreamsConfig {
    /// `"uniform"` or `"zipf"` (any case).
    pub distribution: String,
    /// How many streams the load spreads over.
    pub unique_streams: u64,
}

/// Events written before the load starts.
#[derive(Debug, Clone)]
pub struct SetupConfig {
    /// Number of events to prepopulate during setup.
    pub events_to_prepopulate: u64,
    /// Number of streams they spread over; the workload's streams where absent.
    pub prepopulate_streams: Option<u64>,
}

/// A workload: how long to measure, how many writers and readers, what they
/// send and where.
#[derive(Debug, Clone)]
pub struct Workload {
    pub name: String,
    pub duration_seconds: u64,
    pub writers: usize,
    pub readers: usize,
    pub event_size_bytes: usize,
    pub streams: StreamsConfig,
    pub setup: Option<SetupConfig>,
    pub durability: Option<String>,
}

/// Why a workload cannot run.
#[derive(Debug, Clone, Copy, PartialEq, Eq, Structural)]
pub enum WorkloadError {
    /// `streams.unique_streams` is zero: there is no stream to pick.
    NoStreams,
    /// `setup.prepopulate_streams` is zero: there is no stream to fill.
    NoSetupStreams,
}

impl Workload {
    /// Whether the workload can run.
    pub open spec fn valid(&self) -> bool {
        &&& self.streams.unique_streams > 0
        &&& match self.setup {
            Some(s) => s.prepopulate_streams != Some(0u64),
            None => true,
        }
    }
}

/// Reading workloads.
#[derive(Debug, Clone, Copy)]
pub struct WorkloadFile;

impl WorkloadFile {
    /// Checks that a workload read from a file can run.
    pub fn check(wl: &Workload) -> (r: Result<(), WorkloadError>)
        ensures
            r is Ok <==> wl.valid(),
            wl.streams.unique_streams == 0 ==> r == Err::<(), _>(WorkloadError::NoStreams),
            wl.streams.unique_streams > 0 && !wl.valid() ==> r == Err::<(), _>(
                WorkloadError::NoSetupStreams,
            ),
    {
        if wl.streams.unique_streams == 0 {
            return Err(WorkloadError::NoStreams);
        }
        match &wl.setup {
            Some(s) => match s.prepopulate_streams {
                Some(n) => if n == 0 {
                    Err(WorkloadError::NoSetupStreams)
                } else {
                    Ok(())
                },
                None => Ok(()),
            },
            None => Ok(()),
        }
    }
}

/// `a / b` rounded up.
pub open spec fn ceil_div(a: nat, b: nat) -> nat {
    if b == 0 {
        0
    } else {
        ((a + b - 1) / b as int) as nat
    }
}

/// The setup phase: `events_per_stream` events to each of the streams
/// `0..num_streams`, stream by stream.
#[derive(Debug, Clone, Copy, PartialEq, Eq, Structural)]
pub struct Prepopulation {
    pub num_streams: u64,
    pub events_per_stream: u64,
    pub event_size_bytes: usize,
}

impl Prepopulation {
    /// The setup phase of a workload, where it has one: the streams are
    /// `prepopulate_streams`, else the workload's streams, and each gets
    /// `events_to_prepopulate / num_streams` events, rounded up.
    pub fn of(wl: &Workload) -> (r: Option<Prepopulation>)
        requires
            wl.valid(),
        ensures
            wl.setup is None ==> r is None,
            wl.setup matches Some(s) ==> (r matches Some(p) && p.num_streams == (
            match s.prepopulate_streams {
                Some(n) => n,
                None => wl.streams.unique_streams,
            }) && p.events_per_stream == ceil_div(
                s.events_to_prepopulate as nat,
                p.num_streams as nat,
            ) && p.event_size_bytes == wl.event_size_bytes),
    {
        match &wl.setup {
            None => None,
            Some(s) => {
                let n = match s.prepopulate_streams {
                    Some(n) => n,
                    None => wl.streams.unique_streams,
                };
                let e = s.events_to_prepopulate;
                let whole = e / n;
                let extra: u64 = if e % n == 0 { 0 } else { 1 };
                assert(whole + extra <= u64::MAX) by (nonlinear_arith)
                    requires
                        n > 0,
                        whole == e / n,
                        extra == if e % n == 0 { 0int } else { 1int },
                        e <= u64::MAX,
                ;
                let per = whole + extra;
                assert(per == ceil_div(e as nat, n as nat)) by (nonlinear_arith)
                    requires
                        n > 0,
                        per == e / n + if e % n == 0 { 0int } else { 1int },
                ;
                Some(Prepopulation { num_streams: n, events_per_stream: per, event_size_bytes: wl.event_size_bytes })
            },
        }
    }

    /// How many appends the setup phase makes.
    pub open spec fn total(&self) -> nat {
        (self.num_streams * self.events_per_stream) as nat
    }

    /// The `step`-th append of the setup phase, counting from zero: an event
    /// to stream `step / events_per_stream`; none once all were made.
    pub fn event_at(&self, step: u128) -> (r: Option<EventData>)
        ensures
            step >= self.total() ==> r is None,
            step < self.total() ==> (r matches Some(e) && is_load_event(
                e,
                (step as int / self.events_per_stream as int) as nat,
                self.event_size_bytes as nat,
            )),
    {
        assert(self.num_streams * self.events_per_stream <= u64::MAX * u64::MAX)
            by (nonlinear_arith);
        let total = (self.num_streams as u128) * (self.events_per_stream as u128);
        if step >= total {
            return None;
        }
        let stream = step / (self.events_per_stream as u128);
        assert(stream < self.num_streams) by (nonlinear_arith)
            requires
                step < self.num_streams * self.events_per_stream,
                stream == step as int / (self.events_per_stream as int),
                self.events_per_stream > 0,
        ;
        Some(load_event(stream as u64, self.event_size_bytes))
    }
}

} // verus!
