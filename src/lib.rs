//! Load generation, latency accounting and result layout for benchmarking
//! event stores.
//!
//! The library holds the decisions of a benchmark run: which stream each
//! operation targets, what each operation sends, which outcomes count towards
//! the measurement window, how per-task tallies combine, how container
//! telemetry is parsed and summarised, and how results are laid out. The
//! surrounding program performs the network and container I/O and hands the
//! outcomes back.

pub mod adapter;
pub mod cli;
pub mod container_stats;
pub mod decimal;
pub mod metrics;
pub mod registry;
pub mod selection;
pub mod stores;
pub mod text;
pub mod workflow;
pub mod workload;
