use esbench::cli::{parse_key_val, run_dir_name, RUN_META_FILE, SAMPLES_FILE, SUMMARY_FILE};
use esbench::container_stats::{
    parse_cpu_percent, parse_memory_size, parse_stats_line, summarize_usage, SizeError,
};
use esbench::decimal::{decimal_string, parse_decimal};
use esbench::registry::{resolve_store, resolve_workflow, StoreKind, WorkflowKind};
use esbench::stores::default_uri;
use esbench::text::trim;

#[test]
fn memory_sizes_in_each_unit() {
    assert_eq!(parse_memory_size("1.5 GiB"), Ok(1610612736));
    assert_eq!(parse_memory_size("1.5GiB"), Ok(1610612736));
    assert_eq!(parse_memory_size("512 MiB"), Ok(536870912));
    assert_eq!(parse_memory_size("1024 KiB"), Ok(1048576));
    assert_eq!(parse_memory_size("7 B"), Ok(7));
    assert_eq!(parse_memory_size("  123.4MiB "), Ok(129394278));
}

#[test]
fn memory_size_with_unknown_unit_fails() {
    assert_eq!(parse_memory_size("1.0XB"), Err(SizeError::BadNumber));
    assert_eq!(parse_memory_size("12 kB"), Err(SizeError::BadNumber));
    assert_eq!(parse_memory_size("12 GB"), Err(SizeError::BadNumber));
    assert_eq!(parse_memory_size("12"), Err(SizeError::UnknownUnit));
    assert_eq!(parse_memory_size("1.5 TiX"), Err(SizeError::UnknownUnit));
    assert_eq!(parse_memory_size("MiB"), Err(SizeError::BadNumber));
}

#[test]
fn decimals_parse_to_mantissa_and_scale() {
    assert_eq!(parse_decimal("1.5"), Some((15, 1)));
    assert_eq!(parse_decimal("007"), Some((7, 0)));
    assert_eq!(parse_decimal(".25"), Some((25, 2)));
    assert_eq!(parse_decimal("3."), Some((3, 0)));
    assert_eq!(parse_decimal("."), None);
    assert_eq!(parse_decimal(""), None);
    assert_eq!(parse_decimal("1.2.3"), None);
    assert_eq!(parse_decimal("-1"), None);
    assert_eq!(parse_decimal("9999999999999999999"), Some((9999999999999999999, 0)));
    assert_eq!(parse_decimal("12345678901234567890"), None);
}

#[test]
fn cpu_percent_in_hundredths() {
    assert_eq!(parse_cpu_percent("12.34%"), Some(1234));
    assert_eq!(parse_cpu_percent(" 0.50% "), Some(50));
    assert_eq!(parse_cpu_percent("250%"), Some(25000));
    assert_eq!(parse_cpu_percent("1.239%"), Some(123));
    assert_eq!(parse_cpu_percent("--"), None);
}

#[test]
fn stats_line_gives_cpu_and_memory() {
    let s = parse_stats_line("0.50%|123.4MiB / 7.775GiB\n");
    assert_eq!(s.cpu_hundredths, Some(50));
    assert_eq!(s.memory_bytes, Some(129394278));
    let partial = parse_stats_line("--|1.5GiB / 2GiB");
    assert_eq!(partial.cpu_hundredths, None);
    assert_eq!(partial.memory_bytes, Some(1610612736));
    let none = parse_stats_line("garbage");
    assert_eq!(none.cpu_hundredths, None);
    assert_eq!(none.memory_bytes, None);
}

#[test]
fn usage_summary_means_and_peaks() {
    let u = summarize_usage(&vec![100, 300, 200], &vec![10, 20, 31]);
    assert_eq!(u.cpu_samples, 3);
    assert_eq!(u.cpu_total_hundredths, 600);
    assert_eq!(u.peak_cpu_hundredths, Some(300));
    assert_eq!(u.avg_memory_bytes, Some(20));
    assert_eq!(u.peak_memory_bytes, Some(31));
    let empty = summarize_usage(&vec![], &vec![]);
    assert_eq!(empty.cpu_samples, 0);
    assert_eq!(empty.peak_cpu_hundredths, None);
    assert_eq!(empty.avg_memory_bytes, None);
    assert_eq!(empty.peak_memory_bytes, None);
    let big = summarize_usage(&vec![], &vec![u64::MAX, u64::MAX]);
    assert_eq!(big.avg_memory_bytes, Some(u64::MAX));
}

#[test]
fn decimals_render_without_leading_zeros() {
    assert_eq!(decimal_string(0), "0");
    assert_eq!(decimal_string(7), "7");
    assert_eq!(decimal_string(1200), "1200");
    assert_eq!(decimal_string(u64::MAX), "18446744073709551615");
}

#[test]
fn trim_removes_ascii_whitespace_at_both_ends() {
    assert_eq!(trim("\t a b \r\n"), "a b");
    assert_eq!(trim("   "), "");
    assert_eq!(trim("x"), "x");
}

#[test]
fn key_value_options_split_at_first_equals() {
    assert_eq!(
        parse_key_val("api_key=a=b"),
        Ok(("api_key".to_string(), "a=b".to_string()))
    );
    assert_eq!(parse_key_val("k="), Ok(("k".to_string(), String::new())));
    assert_eq!(
        parse_key_val("novalue"),
        Err("invalid KEY=VALUE: no `=` in `novalue`".to_string())
    );
}

#[test]
fn run_directories_name_writers_and_readers() {
    assert_eq!(run_dir_name("dummy", 4, 0), "dummy_w4");
    assert_eq!(run_dir_name("umadb", 0, 2), "umadb_r2");
    assert_eq!(run_dir_name("kurrentdb", 3, 5), "kurrentdb_w3_r5");
    assert_eq!(run_dir_name("kurrentdb", 0, 0), "kurrentdb_w0_r0");
    assert_eq!(SUMMARY_FILE, "summary.json");
    assert_eq!(SAMPLES_FILE, "samples.jsonl");
    assert_eq!(RUN_META_FILE, "run.meta.json");
}

#[test]
fn default_uris_per_store() {
    assert_eq!(default_uri("umadb"), "http://localhost:50051");
    assert_eq!(default_uri("kurrentdb"), "esdb://localhost:2113?tls=false");
    assert_eq!(default_uri("axonserver"), "http://localhost:8124");
    assert_eq!(default_uri("eventsourcingdb"), "http://localhost:4000");
    assert_eq!(default_uri("dummy"), "");
}

#[test]
fn store_and_workflow_names_resolve_in_any_case() {
    assert_eq!(resolve_store("DuMMy"), ("dummy".to_string(), Some(StoreKind::Dummy)));
    assert_eq!(resolve_store("KurrentDB"), ("kurrentdb".to_string(), Some(StoreKind::KurrentDb)));
    assert_eq!(resolve_store("mongo"), ("mongo".to_string(), None));
    assert_eq!(resolve_workflow("Concurrent_Readers"), Some(WorkflowKind::ConcurrentReaders));
    assert_eq!(resolve_workflow("concurrent_writers"), Some(WorkflowKind::ConcurrentWriters));
    assert_eq!(resolve_workflow("bursty"), None);
    assert_eq!(StoreKind::EventsourcingDb.name(), "eventsourcingdb");
    assert_eq!(StoreKind::named("UMADB"), None);
    assert_eq!(WorkflowKind::ConcurrentReaders.name(), "concurrent_readers");
}
