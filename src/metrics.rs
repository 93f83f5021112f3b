//! Latency recording, raw samples and the clock of a run.

use vstd::prelude::*;

use hdrhistogram::Histogram;

verus! {

/// A high-dynamic-range histogram of operation latencies in microseconds.
/// Verus sees it as opaque: what the library knows of it is how many values
/// it has counted, `recorded_count`.
#[verifier::external_body]
pub struct LatencyRecorder {
    pub hist: Histogram<u64>,
}

/// How many values a recorder's histogram has counted: its total count,
/// `Histogram::len`.
pub uninterp spec fn recorded_count(r: LatencyRecorder) -> nat;

/// How many values a recorder's histogram counts in the bucket of `value`:
/// `Histogram::count_at`.
pub uninterp spec fn bucket_count(r: LatencyRecorder, value: u64) -> nat;

/// Whether a recorder's histogram grows to take any value, as one that
/// `Histogram::new` made does.
pub uninterp spec fn auto_resizing(r: LatencyRecorder) -> bool;

/// Relies on `hdrhistogram::Histogram::new`: an auto-resizing histogram with
/// `sigfig` significant figures, empty; it fails only for `sigfig > 5`.
#[verifier::external_body]
fn empty_recorder(sigfig: u8) -> (r: LatencyRecorder)
    requires
        sigfig <= 5,
    ensures
        recorded_count(r) == 0,
        forall|v: u64| bucket_count(r, v) == 0,
        auto_resizing(r),
{
    LatencyRecorder { hist: Histogram::new(sigfig).unwrap() }
}

/// Relies on `hdrhistogram::Histogram::record`: on success the value is
/// counted once more and its bucket holds at least one value; on failure the
/// counts stay as they were. It fails only where the value lies beyond the
/// range and auto-resizing is off. The total count stays below the point
/// where it would saturate.
#[verifier::external_body]
fn histogram_record(r: &mut LatencyRecorder, value: u64) -> (ok: bool)
    requires
        recorded_count(*old(r)) < u64::MAX,
    ensures
        ok ==> bucket_count(*final(r), value) >= 1,
        auto_resizing(*old(r)) ==> ok,
        auto_resizing(*final(r)) == auto_resizing(*old(r)),
        ok ==> recorded_count(*final(r)) == recorded_count(*old(r)) + 1,
        !ok ==> recorded_count(*final(r)) == recorded_count(*old(r)),
{
    r.hist.record(value).is_ok()
}

/// Relies on `hdrhistogram::Histogram::add`: on success the counts of
/// `other` are added to those of `r`; on failure `r` counts what it counted.
/// The counts stay below the point where a bucket would saturate. It fails
/// only where `other` holds values beyond the range and auto-resizing is off.
#[verifier::external_body]
fn histogram_add(r: &mut LatencyRecorder, other: &LatencyRecorder) -> (ok: bool)
    requires
        recorded_count(*old(r)) + recorded_count(*other) <= u64::MAX,
    ensures
        auto_resizing(*old(r)) ==> ok,
        auto_resizing(*final(r)) == auto_resizing(*old(r)),
        ok ==> recorded_count(*final(r)) == recorded_count(*old(r)) + recorded_count(*other),
        !ok ==> recorded_count(*final(r)) == recorded_count(*old(r)),
{
    r.hist.add(&other.hist).is_ok()
}

/// Significant figures that latency histograms keep.
pub const LATENCY_SIGFIG: u8 = 3;

impl LatencyRecorder {
    /// How many latencies have been recorded.
    pub open spec fn count(&self) -> nat {
        recorded_count(*self)
    }

    /// Whether the histogram grows to take any value.
    pub open spec fn resizes(&self) -> bool {
        auto_resizing(*self)
    }

    /// An empty recorder.
    pub fn new() -> (r: Self)
        ensures
            r.count() == 0,
            forall|v: u64| !r.holds(v),
            r.resizes(),
    {
        empty_recorder(LATENCY_SIGFIG)
    }

    /// Whether the histogram holds a value in the bucket of `value`.
    pub open spec fn holds(&self, value: u64) -> bool {
        bucket_count(*self, value) >= 1
    }

    /// Records one latency, as at least one microsecond. Returns whether the
    /// histogram took it.
    pub fn record(&mut self, latency_us: u64) -> (recorded: bool)
        requires
            old(self).count() < u64::MAX,
        ensures
            recorded ==> final(self).holds(clamped_latency(latency_us)),
            recorded ==> final(self).count() == old(self).count() + 1,
            !recorded ==> final(self).count() == old(self).count(),
            old(self).resizes() ==> recorded,
            final(self).resizes() == old(self).resizes(),
    {
        histogram_record(self, clamp_latency(latency_us))
    }

    /// Adds all latencies of `other`. Returns whether the histogram took them.
    pub fn merge(&mut self, other: &LatencyRecorder) -> (merged: bool)
        requires
            old(self).count() + other.count() <= u64::MAX,
        ensures
            merged ==> final(self).count() == old(self).count() + other.count(),
            !merged ==> final(self).count() == old(self).count(),
            old(self).resizes() ==> merged,
            final(self).resizes() == old(self).resizes(),
    {
        histogram_add(self, other)
    }
}

/// A latency as recorded: never below one microsecond.
pub open spec fn clamped_latency(latency_us: u64) -> u64 {
    if latency_us == 0 {
        1
    } else {
        latency_us
    }
}

/// A latency as recorded: never below one microsecond.
pub fn clamp_latency(latency_us: u64) -> (r: u64)
    ensures
        r == clamped_latency(latency_us),
        r >= 1,
{
    if latency_us == 0 {
        1
    } else {
        latency_us
    }
}

/// One operation completed inside the measurement window.
#[derive(Debug, Clone)]
pub struct RawSample {
    /// Wall-clock time of capture, in milliseconds since the Unix epoch.
    pub t_ms: u128,
    /// `"append"` or `"read"`.
    pub op: String,
    /// Latency in microseconds, at least one.
    pub latency_us: u64,
    /// Whether the operation succeeded.
    pub ok: bool,
}

/// What a sample holds, with its operation name as characters.
pub struct SampleView {
    pub t_ms: u128,
    pub op: Seq<char>,
    pub latency_us: u64,
    pub ok: bool,
}

impl View for RawSample {
    type V = SampleView;

    open spec fn view(&self) -> SampleView {
        SampleView { t_ms: self.t_ms, op: self.op@, latency_us: self.latency_us, ok: self.ok }
    }
}

/// Relies on `std::time::SystemTime::elapsed` from the Unix epoch: the
/// wall-clock time, or nothing where the clock stands before the epoch.
#[verifier::external_body]
fn millis_since_epoch() -> (r: Option<u128>) {
    std::time::UNIX_EPOCH.elapsed().ok().map(|d| d.as_millis())
}

/// Milliseconds since the Unix epoch by the wall clock; zero where the clock
/// stands before the epoch.
pub fn now_ms() -> u128 {
    match millis_since_epoch() {
        Some(ms) => ms,
        None => 0,
    }
}

/// Microseconds in a second.
pub const MICROS_PER_SECOND: u128 = 1_000_000;

/// Length of the warmup and of the cooldown around the measurement window,
/// in microseconds.
pub const FLANK_US: u128 = 1_000_000;

/// Where a moment of a run falls.
#[derive(Debug, Clone, Copy, PartialEq, Eq, Structural)]
pub enum Phase {
    /// Before the measurement window: load runs, nothing counts.
    Warmup,
    /// Inside the measurement window: outcomes count.
    Measuring,
    /// After the measurement window: load runs, nothing counts.
    Cooldown,
    /// The run is over: no more operations start.
    Done,
}

/// The instants of a run, in microseconds since the load started: the
/// measurement window `[measurement_start_us, measurement_end_us]` and the
/// end of the run.
#[derive(Debug, Clone, Copy, PartialEq, Eq, Structural)]
pub struct RunClock {
    pub measurement_start_us: u128,
    pub measurement_end_us: u128,
    pub end_at_us: u128,
}

impl RunClock {
    /// One second of warmup, the declared duration, one second of cooldown.
    pub open spec fn spec_new(duration_seconds: u64) -> RunClock {
        RunClock {
            measurement_start_us: FLANK_US,
            measurement_end_us: (FLANK_US + duration_seconds * MICROS_PER_SECOND) as u128,
            end_at_us: (2 * FLANK_US + duration_seconds * MICROS_PER_SECOND) as u128,
        }
    }

    /// The clock of a run whose measurement window lasts `duration_seconds`.
    pub fn new(duration_seconds: u64) -> (r: RunClock)
        ensures
            r == RunClock::spec_new(duration_seconds),
    {
        let window = (duration_seconds as u128) * MICROS_PER_SECOND;
        RunClock {
            measurement_start_us: FLANK_US,
            measurement_end_us: FLANK_US + window,
            end_at_us: FLANK_US + window + FLANK_US,
        }
    }

    /// Whether an outcome captured at `now_us` counts.
    pub open spec fn spec_in_window(&self, now_us: u128) -> bool {
        self.measurement_start_us <= now_us <= self.measurement_end_us
    }

    /// Whether an outcome captured at `now_us` counts.
    #[verifier::when_used_as_spec(spec_in_window)]
    pub fn in_window(&self, now_us: u128) -> (r: bool)
        ensures
            r == self.spec_in_window(now_us),
    {
        self.measurement_start_us <= now_us && now_us <= self.measurement_end_us
    }

    pub open spec fn spec_phase(&self, now_us: u128) -> Phase {
        if now_us < self.measurement_start_us {
            Phase::Warmup
        } else if now_us <= self.measurement_end_us {
            Phase::Measuring
        } else if now_us < self.end_at_us {
            Phase::Cooldown
        } else {
            Phase::Done
        }
    }

    /// The phase of the run at `now_us`.
    pub fn phase(&self, now_us: u128) -> (r: Phase)
        ensures
            r == self.spec_phase(now_us),
    {
        if now_us < self.measurement_start_us {
            Phase::Warmup
        } else if now_us <= self.measurement_end_us {
            Phase::Measuring
        } else if now_us < self.end_at_us {
            Phase::Cooldown
        } else {
            Phase::Done
        }
    }

    /// Whether another operation starts at `now_us`.
    pub fn running(&self, now_us: u128) -> (r: bool)
        ensures
            r == (now_us < self.end_at_us),
    {
        now_us < self.end_at_us
    }
}

} // verus!
