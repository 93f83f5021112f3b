use std::collections::HashMap;

use esbench::adapter::{apply_read_request, load_event, load_read, stream_name, ConnectionParams, ReadEvent, ReadRequest};
use esbench::metrics::{now_ms, LatencyRecorder, Phase, RunClock};
use esbench::selection::{is_zipf, StreamSelector};
use esbench::stores::{
    DummyAdapter, DummyFactory, Readiness, ReadinessStep, UmaDb, UmaDbFactory, READINESS_ATTEMPTS,
};
use esbench::workflow::{
    ConcurrentReadersFactory, ConcurrentWritersFactory, Operation, RunOptions, RunTotals,
    SummaryCounts, TaskState,
};
use esbench::workload::{Prepopulation, SetupConfig, StreamsConfig, Workload, WorkloadError, WorkloadFile};

fn workload(writers: usize, readers: usize, distribution: &str, unique_streams: u64) -> Workload {
    Workload {
        name: "test".to_string(),
        duration_seconds: 1,
        writers,
        readers,
        event_size_bytes: 64,
        streams: StreamsConfig { distribution: distribution.to_string(), unique_streams },
        setup: None,
        durability: None,
    }
}

fn event(offset: u64) -> ReadEvent {
    ReadEvent { offset, event_type: "e".to_string(), payload: vec![offset as u8], timestamp_ms: 0 }
}

fn offsets(v: &[ReadEvent]) -> Vec<u64> {
    v.iter().map(|e| e.offset).collect()
}

/// Drives writer tasks with a dummy store on a simulated clock that
/// advances `step_us` per operation.
fn run_writers(tasks: &mut Vec<TaskState>, step_us: u128) {
    let store = DummyAdapter::new(&ConnectionParams { uri: String::new(), options: HashMap::new() })
        .expect("dummy");
    for t in tasks.iter_mut() {
        let mut now: u128 = 0;
        while t.running(now) {
            let e = t.next_append();
            let ok = store.append(e);
            now += step_us;
            t.observe_append(now, 1_700_000_000_000 + now / 1000, 10, ok);
        }
    }
}

fn run_readers(tasks: &mut Vec<TaskState>, step_us: u128) {
    let store = DummyAdapter::new(&ConnectionParams { uri: String::new(), options: HashMap::new() })
        .expect("dummy");
    for t in tasks.iter_mut() {
        let mut now: u128 = 0;
        while t.running(now) {
            let req = t.next_read();
            let got = store.read(&req);
            now += step_us;
            t.observe_read(now, 1_700_000_000_000 + now / 1000, 25, Some(got.len() as u64));
        }
    }
}

#[test]
fn stream_names_are_prefixed_decimals() {
    assert_eq!(stream_name(0), "stream-0");
    assert_eq!(stream_name(42), "stream-42");
    assert_eq!(stream_name(9999), "stream-9999");
}

#[test]
fn load_operations_have_fixed_shape() {
    let e = load_event(7, 64);
    assert_eq!(e.stream, "stream-7");
    assert_eq!(e.event_type, "test");
    assert_eq!(e.payload, vec![0u8; 64]);
    assert!(e.tags.is_empty());
    let r = load_read(3);
    assert_eq!(r.stream, "stream-3");
    assert_eq!(r.from_offset, None);
    assert_eq!(r.limit, Some(100));
}

#[test]
fn read_window_filters_and_truncates() {
    let all: Vec<ReadEvent> = (0..10).map(event).collect();
    let req = ReadRequest { stream: "s".to_string(), from_offset: Some(4), limit: Some(3) };
    assert_eq!(offsets(&apply_read_request(all.clone(), &req)), vec![4, 5, 6]);
    let req = ReadRequest { stream: "s".to_string(), from_offset: None, limit: Some(2) };
    assert_eq!(offsets(&apply_read_request(all.clone(), &req)), vec![0, 1]);
    let req = ReadRequest { stream: "s".to_string(), from_offset: Some(8), limit: None };
    assert_eq!(offsets(&apply_read_request(all.clone(), &req)), vec![8, 9]);
    let req = ReadRequest { stream: "s".to_string(), from_offset: None, limit: Some(0) };
    assert!(apply_read_request(all, &req).is_empty());
}

#[test]
fn workload_check_rejects_empty_stream_sets() {
    assert_eq!(WorkloadFile::check(&workload(1, 0, "uniform", 10)), Ok(()));
    assert_eq!(WorkloadFile::check(&workload(1, 0, "uniform", 0)), Err(WorkloadError::NoStreams));
    let mut wl = workload(1, 0, "uniform", 10);
    wl.setup = Some(SetupConfig { events_to_prepopulate: 5, prepopulate_streams: Some(0) });
    assert_eq!(WorkloadFile::check(&wl), Err(WorkloadError::NoSetupStreams));
}

#[test]
fn prepopulation_fills_each_stream() {
    let mut wl = workload(1, 0, "uniform", 100);
    wl.setup = Some(SetupConfig { events_to_prepopulate: 100, prepopulate_streams: Some(10) });
    let plan = Prepopulation::of(&wl).expect("setup");
    assert_eq!(plan.num_streams, 10);
    assert_eq!(plan.events_per_stream, 10);
    let mut to_stream_3 = 0;
    let mut step: u128 = 0;
    while let Some(e) = plan.event_at(step) {
        if e.stream == "stream-3" {
            to_stream_3 += 1;
        }
        assert_eq!(e.payload.len(), 64);
        step += 1;
    }
    assert_eq!(step, 100);
    assert!(to_stream_3 >= 10);
}

#[test]
fn prepopulation_rounds_up_and_defaults_to_workload_streams() {
    let mut wl = workload(1, 0, "uniform", 3);
    wl.setup = Some(SetupConfig { events_to_prepopulate: 10, prepopulate_streams: None });
    let plan = Prepopulation::of(&wl).expect("setup");
    assert_eq!(plan.num_streams, 3);
    assert_eq!(plan.events_per_stream, 4);
    assert_eq!(plan.event_at(11).expect("last").stream, "stream-2");
    assert!(plan.event_at(12).is_none());
    assert!(Prepopulation::of(&workload(1, 0, "uniform", 3)).is_none());
}

#[test]
fn zipf_is_recognised_in_any_case() {
    assert!(is_zipf("zipf"));
    assert!(is_zipf("ZiPf"));
    assert!(!is_zipf("uniform"));
    assert!(!is_zipf("zipf "));
}

#[test]
fn stream_selection_is_deterministic_per_seed_and_task() {
    let mut a = StreamSelector::new(true, 10_000, 42, 3);
    let mut b = StreamSelector::new(true, 10_000, 42, 3);
    let mut c = StreamSelector::new(true, 10_000, 42, 4);
    let xs: Vec<u64> = (0..1000).map(|_| a.next_index()).collect();
    let ys: Vec<u64> = (0..1000).map(|_| b.next_index()).collect();
    let zs: Vec<u64> = (0..1000).map(|_| c.next_index()).collect();
    assert_eq!(xs, ys);
    assert_ne!(xs, zs);
    let mut d = StreamSelector::new(true, 10_000, 45, 0);
    let ds: Vec<u64> = (0..1000).map(|_| d.next_index()).collect();
    let mut e = StreamSelector::new(true, 10_000, 42, 3);
    let es: Vec<u64> = (0..1000).map(|_| e.next_index()).collect();
    assert_eq!(ds, es);
}

fn hot_share(heavy_tail: bool, seed: u64) -> f64 {
    let mut s = StreamSelector::new(heavy_tail, 10_000, seed, 0);
    let n = 100_000;
    let mut hot = 0;
    for _ in 0..n {
        let i = s.next_index();
        assert!(i < 10_000);
        if i < 100 {
            hot += 1;
        }
    }
    hot as f64 / n as f64
}

#[test]
fn heavy_tail_hits_hot_set_about_a_fifth_of_the_time() {
    let share = hot_share(true, 42);
    assert!(share >= 0.19 * 1.0 + 0.8 * 0.01 - 0.005, "share {}", share);
    assert!(share <= 0.2 + 0.8 * 0.01 + 0.01, "share {}", share);
    let uniform = hot_share(false, 42);
    assert!(uniform > 0.005 && uniform < 0.015, "uniform share {}", uniform);
}

#[test]
fn small_stream_sets_keep_picks_in_range() {
    let mut s = StreamSelector::new(true, 3, 1, 0);
    for _ in 0..1000 {
        assert!(s.next_index() < 3);
    }
}

#[test]
fn histogram_percentiles_of_one_to_a_thousand() {
    let mut rec = LatencyRecorder::new();
    for us in 1..=1000u64 {
        assert!(rec.record(us));
    }
    let p50 = rec.hist.value_at_quantile(0.50) as f64 / 1000.0;
    let p99 = rec.hist.value_at_quantile(0.99) as f64 / 1000.0;
    assert!((p50 - 0.500).abs() <= 0.005, "p50 {}", p50);
    assert!((p99 - 0.990).abs() <= 0.005, "p99 {}", p99);
    assert_eq!(rec.hist.len(), 1000);
}

#[test]
fn zero_latency_is_recorded_as_one_microsecond() {
    let mut rec = LatencyRecorder::new();
    assert!(rec.record(0));
    assert_eq!(rec.hist.min(), 1);
    let mut other = LatencyRecorder::new();
    assert!(other.record(500));
    assert!(other.record(7));
    assert!(rec.merge(&other));
    assert_eq!(rec.hist.len(), 3);
    assert_eq!(rec.hist.max(), 500);
}

#[test]
fn clock_windows_flank_the_measurement() {
    let c = RunClock::new(1);
    assert_eq!(c.measurement_start_us, 1_000_000);
    assert_eq!(c.measurement_end_us, 2_000_000);
    assert_eq!(c.end_at_us, 3_000_000);
    assert_eq!(c.phase(999_999), Phase::Warmup);
    assert_eq!(c.phase(1_000_000), Phase::Measuring);
    assert_eq!(c.phase(2_000_000), Phase::Measuring);
    assert_eq!(c.phase(2_000_001), Phase::Cooldown);
    assert_eq!(c.phase(3_000_000), Phase::Done);
    assert!(c.in_window(1_500_000));
    assert!(!c.in_window(2_500_000));
}

#[test]
fn only_measurement_window_outcomes_count() {
    let wl = workload(1, 0, "uniform", 10);
    let w = ConcurrentWritersFactory.create(wl, 42);
    let clock = RunClock::new(1);
    let mut t = w.task(0, clock);
    assert!(!t.observe_append(500_000, 1, 0, true));
    assert!(t.observe_append(1_500_000, 2, 0, true));
    assert!(t.observe_append(1_600_000, 3, 12, false));
    assert!(!t.observe_append(2_500_000, 4, 5, true));
    assert_eq!(t.samples.len(), 2);
    assert_eq!(t.samples[0].t_ms, 2);
    assert_eq!(t.samples[0].latency_us, 1);
    assert_eq!(t.samples[0].op, "append");
    assert!(t.samples[0].ok);
    assert_eq!(t.samples[1].latency_us, 12);
    assert!(!t.samples[1].ok);
    assert_eq!(t.ok_ops, 1);
    assert_eq!(t.failed_ops, 1);
    assert_eq!(t.events, 1);
    assert_eq!(t.recorder.hist.len(), 2);
}

#[test]
fn dummy_writers_only_run() {
    let wl = workload(2, 0, "uniform", 100);
    let w = ConcurrentWritersFactory.create(wl.clone(), 42);
    let clock = RunClock::new(wl.duration_seconds);
    let mut tasks = w.tasks(wl.writers, clock);
    assert_eq!(tasks.len(), 2);
    run_writers(&mut tasks, 1000);
    let totals = RunTotals::combine(tasks, clock).expect("totals");
    assert!(totals.events_written > 0);
    assert_eq!(totals.events_read, 0);
    assert!(!totals.samples.is_empty());
    assert_eq!(totals.recorder.hist.len(), totals.events_written + totals.failed_ops);
    for s in &totals.samples {
        assert!(s.latency_us >= 1);
        assert_eq!(s.op, "append");
    }
    let counts = SummaryCounts::of(&wl, &totals);
    assert_eq!(counts.duration_s, 1);
    assert!(counts.throughput_numerator > 0);
    assert_eq!(counts.throughput_denominator, 1000);
    assert_eq!(counts.events_written, 2002);
}

#[test]
fn dummy_readers_only_run() {
    let wl = workload(0, 2, "uniform", 100);
    let r = ConcurrentReadersFactory.create(wl.clone(), 42);
    let clock = RunClock::new(wl.duration_seconds);
    let mut tasks = r.tasks(wl.readers, clock);
    run_readers(&mut tasks, 1000);
    let totals = RunTotals::combine(tasks, clock).expect("totals");
    assert_eq!(totals.events_read, 0);
    assert_eq!(totals.events_written, 0);
    assert!(!totals.samples.is_empty());
    assert!(totals.samples.iter().all(|s| s.op == "read" && s.ok));
}

#[test]
fn heavy_tail_writer_run_favours_hot_streams() {
    let mut wl = workload(1, 0, "zipf", 10_000);
    wl.duration_seconds = 2;
    let w = ConcurrentWritersFactory.create(wl.clone(), 42);
    let clock = RunClock::new(wl.duration_seconds);
    let mut t = w.task(0, clock);
    let mut now: u128 = 0;
    let (mut counted, mut hot) = (0u64, 0u64);
    while t.running(now) {
        let e = t.next_append();
        now += 20;
        if t.observe_append(now, now / 1000, 20, true) {
            counted += 1;
            let idx: u64 = e.stream["stream-".len()..].parse().unwrap();
            if idx < 100 {
                hot += 1;
            }
        }
    }
    let share = hot as f64 / counted as f64;
    assert!(counted >= 100_000);
    assert!(share >= 0.18 && share <= 0.24, "share {}", share);
}

#[test]
fn readiness_gives_up_after_sixty_failed_probes() {
    let mut r = Readiness::new();
    let mut waits = 0;
    loop {
        match r.on_probe(false) {
            ReadinessStep::RetryAfterSecond => waits += 1,
            ReadinessStep::GiveUp => break,
            ReadinessStep::Ready => panic!("never ready"),
        }
    }
    assert_eq!(r.failed_probes, READINESS_ATTEMPTS);
    assert_eq!(waits, 59);
    let mut ready = Readiness::new();
    assert_eq!(ready.on_probe(false), ReadinessStep::RetryAfterSecond);
    assert_eq!(ready.on_probe(true), ReadinessStep::Ready);
}

#[test]
fn dummy_store_accepts_and_holds_nothing() {
    let d = DummyAdapter::new(&ConnectionParams { uri: String::new(), options: HashMap::new() })
        .expect("dummy");
    assert!(d.append(load_event(1, 8)));
    assert!(d.read(&load_read(1)).is_empty());
    assert_eq!(d.ping_us(), 1000);
    assert_eq!(DummyFactory.name(), "dummy");
    assert_eq!(UmaDbFactory.name(), "umadb");
    assert_eq!(ConcurrentWritersFactory.name(), "concurrent_writers");
    assert_eq!(ConcurrentReadersFactory.name(), "concurrent_readers");
    let img = UmaDb::default();
    assert_eq!(img.volume_target, "/data");
    assert_eq!(img.expose_ports(), vec![50051]);
}

#[test]
fn run_options_carry_seed() {
    let o = RunOptions {
        adapter_name: "dummy".to_string(),
        conn: ConnectionParams { uri: String::new(), options: HashMap::new() },
        seed: 42,
    };
    let wl = workload(1, 0, "uniform", 10);
    let w = ConcurrentWritersFactory.create(wl, o.seed);
    assert_eq!(w.seed, 42);
    assert_eq!(w.task(0, RunClock::new(1)).operation, Operation::Append);
}

#[test]
fn wall_clock_is_after_the_epoch() {
    assert!(now_ms() > 1_600_000_000_000);
}

#[test]
fn failed_and_multi_event_reads_are_tallied_apart() {
    let wl = workload(0, 1, "uniform", 10);
    let r = ConcurrentReadersFactory.create(wl, 7);
    let clock = RunClock::new(1);
    let mut t = r.task(0, clock);
    let req = t.next_read();
    assert!(req.stream.starts_with("stream-"));
    assert_eq!(req.limit, Some(100));
    assert!(t.observe_read(1_100_000, 10, 40, None));
    assert!(t.observe_read(1_200_000, 11, 40, Some(3)));
    assert!(t.observe_read(1_300_000, 12, 40, Some(0)));
    assert!(!t.observe_read(3_100_000, 13, 40, Some(5)));
    assert_eq!(t.ok_ops, 2);
    assert_eq!(t.failed_ops, 1);
    assert_eq!(t.events, 8);
    assert_eq!(t.samples.len(), 3);
    assert!(!t.samples[0].ok);
    assert!(t.samples.iter().all(|s| s.op == "read"));
}

#[test]
fn writer_and_reader_tasks_combine_into_run_totals() {
    let wl = workload(1, 1, "uniform", 10);
    let clock = RunClock::new(1);
    let mut w = ConcurrentWritersFactory.create(wl.clone(), 1).task(0, clock);
    let mut r = ConcurrentReadersFactory.create(wl, 1).task(0, clock);
    assert!(w.observe_append(1_000_000, 1, 5, true));
    assert!(w.observe_append(1_000_001, 2, 5, false));
    assert!(r.observe_read(2_000_000, 3, 5, Some(1)));
    let totals = RunTotals::combine(vec![w, r], clock).expect("totals");
    assert_eq!(totals.events_written, 1);
    assert_eq!(totals.events_read, 1);
    assert_eq!(totals.ok_ops, 2);
    assert_eq!(totals.failed_ops, 1);
    assert_eq!(totals.samples.len(), 3);
    assert_eq!(totals.samples[2].op, "read");
    assert_eq!(totals.recorder.hist.len(), 3);
    assert!(totals.events_written + totals.events_read <= totals.recorder.hist.len());
    assert!(totals.recorder.hist.len() <= totals.events_written + totals.events_read + totals.failed_ops);
    let empty = RunTotals::combine(Vec::new(), clock).expect("totals");
    assert_eq!(empty.samples.len(), 0);
    assert_eq!(empty.recorder.hist.len(), 0);
}

#[test]
fn reads_outside_the_window_add_events_but_no_samples() {
    let wl = workload(0, 1, "uniform", 10);
    let clock = RunClock::new(1);
    let mut t = ConcurrentReadersFactory.create(wl, 3).task(0, clock);
    assert!(!t.observe_read(200_000, 1, 9, Some(4)));
    assert!(!t.observe_read(2_500_000, 2, 9, None));
    assert!(!t.observe_read(2_600_000, 3, 9, Some(2)));
    assert_eq!(t.events, 6);
    assert_eq!(t.ok_ops, 0);
    assert_eq!(t.failed_ops, 0);
    assert!(t.samples.is_empty());
    assert_eq!(t.recorder.hist.len(), 0);
    let mut w = ConcurrentWritersFactory.create(workload(1, 0, "uniform", 10), 3).task(0, clock);
    assert!(!w.observe_append(200_000, 1, 9, true));
    assert_eq!(w.events, 0);
}

#[test]
fn recorded_latency_lands_in_its_bucket() {
    let mut rec = LatencyRecorder::new();
    assert!(rec.record(0));
    assert_eq!(rec.hist.count_at(1), 1);
    assert!(rec.record(42));
    assert_eq!(rec.hist.count_at(42), 1);
}
