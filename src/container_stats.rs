//! Container telemetry: parsing what the container runtime prints, and
//! summarising the samples taken during a run.

use vstd::prelude::*;

use crate::decimal::{decimal_value, parse_decimal, pow10, pow10_u128};
use crate::text::{ends_with, find_char, has_suffix, index_or_end, trim, trim_spaces};

verus! {

/// Why a memory size could not be read.
#[derive(Debug, Clone, Copy, PartialEq, Eq, Structural)]
pub enum SizeError {
    /// The text ends in none of `GiB`, `MiB`, `KiB`, `B`.
    UnknownUnit,
    /// The text before the unit is not a decimal number.
    BadNumber,
}

pub open spec fn gib_suffix() -> Seq<char> {
    seq!['G', 'i', 'B']
}

pub open spec fn mib_suffix() -> Seq<char> {
    seq!['M', 'i', 'B']
}

pub open spec fn kib_suffix() -> Seq<char> {
    seq!['K', 'i', 'B']
}

pub open spec fn byte_suffix() -> Seq<char> {
    seq!['B']
}

/// The unit that `t` ends in, tried in the order `GiB`, `MiB`, `KiB`, `B`,
/// as the length of its suffix and its factor in bytes.
pub open spec fn memory_unit(t: Seq<char>) -> Option<(nat, nat)> {
    if ends_with(t, gib_suffix()) {
        Some((3, 1024 * 1024 * 1024))
    } else if ends_with(t, mib_suffix()) {
        Some((3, 1024 * 1024))
    } else if ends_with(t, kib_suffix()) {
        Some((3, 1024))
    } else if ends_with(t, byte_suffix()) {
        Some((1, 1))
    } else {
        None
    }
}

/// `v` as a `u64`, or `u64::MAX` where it does not fit.
pub open spec fn saturate(v: nat) -> u64 {
    if v > u64::MAX {
        u64::MAX
    } else {
        v as u64
    }
}

/// `m / 10^k` times `factor`, rounded down and saturated.
pub open spec fn scaled_value(m: nat, k: nat, factor: nat) -> u64 {
    saturate(m * factor / pow10(k))
}

/// The number of bytes that a size such as `"123.4MiB"` or `"1.5 GiB"`
/// denotes, rounded down; surrounding whitespace is ignored.
pub open spec fn memory_size_of(s: Seq<char>) -> Result<u64, SizeError> {
    let t = trim_spaces(s);
    match memory_unit(t) {
        None => Err(SizeError::UnknownUnit),
        Some((n, factor)) => match decimal_value(trim_spaces(t.take(t.len() - n))) {
            None => Err(SizeError::BadNumber),
            Some((m, k)) => Ok(scaled_value(m, k, factor)),
        },
    }
}

fn scale_decimal(m: u64, k: u32, factor: u64) -> (r: u64)
    requires
        k <= 19,
        factor <= 1024 * 1024 * 1024,
    ensures
        r == scaled_value(m as nat, k as nat, factor as nat),
{
    let d = pow10_u128(k);
    assert(m * factor <= u64::MAX * (1024 * 1024 * 1024)) by (nonlinear_arith)
        requires
            factor <= 1024 * 1024 * 1024,
    ;
    let v = (m as u128) * (factor as u128) / d;
    if v > u64::MAX as u128 {
        u64::MAX
    } else {
        v as u64
    }
}

/// Reads a memory size such as `"123.4MiB"` as a number of bytes, rounded
/// down; surrounding whitespace is ignored. The unit is one of `GiB`, `MiB`,
/// `KiB`, `B` (tried in that order, factors `1024^3`, `1024^2`, `1024`, `1`).
pub fn parse_memory_size(s: &str) -> (r: Result<u64, SizeError>)
    ensures
        r == memory_size_of(s@),
{
    let t = trim(s);
    let n = t.unicode_len();
    proof {
        reveal_strlit("GiB");
        reveal_strlit("MiB");
        reveal_strlit("KiB");
        reveal_strlit("B");
        assert("GiB"@ =~= gib_suffix());
        assert("MiB"@ =~= mib_suffix());
        assert("KiB"@ =~= kib_suffix());
        assert("B"@ =~= byte_suffix());
    }
    let (unit_len, factor): (usize, u64) = if has_suffix(t, "GiB") {
        (3, 1024 * 1024 * 1024)
    } else if has_suffix(t, "MiB") {
        (3, 1024 * 1024)
    } else if has_suffix(t, "KiB") {
        (3, 1024)
    } else if has_suffix(t, "B") {
        (1, 1)
    } else {
        return Err(SizeError::UnknownUnit);
    };
    let number = trim(t.substring_char(0, n - unit_len));
    assert(t@.subrange(0, n - unit_len) =~= t@.take(t@.len() - unit_len));
    match parse_decimal(number) {
        None => Err(SizeError::BadNumber),
        Some((m, k)) => Ok(scale_decimal(m, k, factor)),
    }
}

/// `s` without the `'%'` signs at its end.
pub open spec fn strip_percent(s: Seq<char>) -> Seq<char>
    decreases s.len(),
{
    if s.len() > 0 && s.last() == '%' {
        strip_percent(s.drop_last())
    } else {
        s
    }
}

/// A CPU share such as `"12.34%"` in hundredths of a percent, rounded down;
/// surrounding whitespace and trailing `'%'` signs are ignored.
pub open spec fn cpu_hundredths_of(s: Seq<char>) -> Option<u64> {
    match decimal_value(strip_percent(trim_spaces(s))) {
        None => None,
        Some((m, k)) => Some(scaled_value(m, k, 100)),
    }
}

/// Reads a CPU share such as `"12.34%"` in hundredths of a percent, rounded
/// down.
pub fn parse_cpu_percent(s: &str) -> (r: Option<u64>)
    ensures
        r == cpu_hundredths_of(s@),
{
    let t = trim(s);
    let mut j: usize = t.unicode_len();
    assert(t@.subrange(0, j as int) =~= t@);
    while j > 0 && t.get_char(j - 1) == '%'
        invariant
            j <= t@.len(),
            strip_percent(t@) == strip_percent(t@.subrange(0, j as int)),
        decreases j,
    {
        assert(t@.subrange(0, j as int).drop_last() =~= t@.subrange(0, j - 1));
        j = j - 1;
    }
    match parse_decimal(t.substring_char(0, j)) {
        None => None,
        Some((m, k)) => Some(scale_decimal(m, k, 100)),
    }
}

/// One snapshot of a container's resource use. Either part may be missing
/// where the runtime printed something unreadable.
#[derive(Debug, Clone, Copy, PartialEq, Eq, Structural)]
pub struct ContainerStats {
    /// CPU share in hundredths of a percent.
    pub cpu_hundredths: Option<u64>,
    /// Memory in use, in bytes.
    pub memory_bytes: Option<u64>,
}

pub open spec fn ok_value(r: Result<u64, SizeError>) -> Option<u64> {
    match r {
        Ok(v) => Some(v),
        Err(_) => None,
    }
}

/// What a stats line `"<cpu>|<used> / <limit>"` says: the CPU share is the
/// text before the first `'|'`, the memory in use the text between it and
/// the first `'/'` after it. A line without `'|'` says nothing.
pub open spec fn stats_line_sample(line: Seq<char>) -> ContainerStats {
    let bar = index_or_end(line, '|');
    if bar == line.len() {
        ContainerStats { cpu_hundredths: None, memory_bytes: None }
    } else {
        let mem = line.skip(bar + 1 as int);
        ContainerStats {
            cpu_hundredths: cpu_hundredths_of(line.take(bar as int)),
            memory_bytes: ok_value(memory_size_of(mem.take(index_or_end(mem, '/') as int))),
        }
    }
}

/// Reads one line that the container runtime printed for the format
/// `{{.CPUPerc}}|{{.MemUsage}}`.
pub fn parse_stats_line(line: &str) -> (r: ContainerStats)
    ensures
        r == stats_line_sample(line@),
{
    let n = line.unicode_len();
    let bar = find_char(line, '|');
    if bar == n {
        return ContainerStats { cpu_hundredths: None, memory_bytes: None };
    }
    let cpu = parse_cpu_percent(line.substring_char(0, bar));
    let mem = line.substring_char(bar + 1, n);
    let slash = find_char(mem, '/');
    let used = parse_memory_size(mem.substring_char(0, slash));
    assert(line@.subrange(0, bar as int) =~= line@.take(bar as int));
    assert(line@.subrange(bar + 1, n as int) =~= line@.skip(bar + 1));
    assert(mem@.subrange(0, slash as int) =~= mem@.take(slash as int));
    let memory_bytes = match used {
        Ok(v) => Some(v),
        Err(_) => None,
    };
    ContainerStats { cpu_hundredths: cpu, memory_bytes }
}

/// The sum of the samples.
pub open spec fn sample_sum(s: Seq<u64>) -> nat
    decreases s.len(),
{
    if s.len() == 0 {
        0
    } else {
        sample_sum(s.drop_last()) + s.last() as nat
    }
}

/// The largest sample, or zero for no samples.
pub open spec fn sample_peak(s: Seq<u64>) -> u64
    decreases s.len(),
{
    if s.len() == 0 {
        0
    } else if s.last() > sample_peak(s.drop_last()) {
        s.last()
    } else {
        sample_peak(s.drop_last())
    }
}

/// What the samples of a run say about a container's resource use. The
/// memory mean is rounded down; the CPU mean is left as a total and a count.
#[derive(Debug, Clone, Copy, PartialEq, Eq, Structural)]
pub struct UsageSummary {
    /// How many CPU samples were taken.
    pub cpu_samples: u64,
    /// The sum of the CPU samples, in hundredths of a percent.
    pub cpu_total_hundredths: u128,
    /// The largest CPU sample, where there was one.
    pub peak_cpu_hundredths: Option<u64>,
    /// The mean of the memory samples, where there was one.
    pub avg_memory_bytes: Option<u64>,
    /// The largest memory sample, where there was one.
    pub peak_memory_bytes: Option<u64>,
}

/// Sum and peak of `s`.
fn sum_and_peak(s: &Vec<u64>) -> (r: (u128, u64))
    ensures
        r.0 == sample_sum(s@),
        r.1 == sample_peak(s@),
        r.0 <= s@.len() * u64::MAX,
{
    let mut total: u128 = 0;
    let mut peak: u64 = 0;
    let mut i: usize = 0;
    while i < s.len()
        invariant
            i <= s@.len(),
            total == sample_sum(s@.take(i as int)),
            peak == sample_peak(s@.take(i as int)),
            total <= i * u64::MAX,
        decreases s@.len() - i,
    {
        let v = s[i];
        proof {
            assert(s@.take(i + 1).drop_last() =~= s@.take(i as int));
            assert(s@.take(i + 1).last() == v);
            assert(i < usize::MAX);
            assert(total + v <= (i + 1) * u64::MAX) by (nonlinear_arith)
                requires
                    total <= i * u64::MAX,
                    v <= u64::MAX,
            ;
            assert((i + 1) * u64::MAX <= usize::MAX * u64::MAX) by (nonlinear_arith)
                requires
                    i + 1 <= usize::MAX,
            ;
        }
        total = total + v as u128;
        if v > peak {
            peak = v;
        }
        i = i + 1;
    }
    assert(s@.take(i as int) =~= s@);
    (total, peak)
}

/// Summarises the CPU and memory samples of a run: means and peaks, each
/// absent where no sample of its kind was taken.
pub fn summarize_usage(cpu: &Vec<u64>, memory: &Vec<u64>) -> (r: UsageSummary)
    ensures
        r.cpu_samples == cpu@.len(),
        r.cpu_total_hundredths == sample_sum(cpu@),
        r.peak_cpu_hundredths == (if cpu@.len() == 0 {
            None
        } else {
            Some(sample_peak(cpu@))
        }),
        r.avg_memory_bytes == (if memory@.len() == 0 {
            None
        } else {
            Some((sample_sum(memory@) / memory@.len()) as u64)
        }),
        r.peak_memory_bytes == (if memory@.len() == 0 {
            None
        } else {
            Some(sample_peak(memory@))
        }),
{
    let (cpu_total, cpu_peak) = sum_and_peak(cpu);
    let (mem_total, mem_peak) = sum_and_peak(memory);
    let count = memory.len();
    let avg_memory_bytes = if count == 0 {
        None
    } else {
        assert(mem_total as nat / (count as nat) <= u64::MAX) by (nonlinear_arith)
            requires
                mem_total <= count * u64::MAX,
                count >= 1,
        ;
        Some((mem_total / count as u128) as u64)
    };
    UsageSummary {
        cpu_samples: cpu.len() as u64,
        cpu_total_hundredths: cpu_total,
        peak_cpu_hundredths: if cpu.len() == 0 { None } else { Some(cpu_peak) },
        avg_memory_bytes,
        peak_memory_bytes: if count == 0 { None } else { Some(mem_peak) },
    }
}

} // verus!
