//! Resource usage of a container, derived from one sample of the runtime's
//! counters. Every derived quantity is kept as an exact fraction, so that no
//! rounding enters before a caller asks for it.

use vstd::prelude::*;
use vstd::hash_map::StringHashMap;

verus! {

/// Bytes in one mebibyte.
pub const BYTES_PER_MB: u64 = 1_048_576;

/// An exact rational quantity, `numerator × multiplier / denominator`.
///
/// The multiplier is kept apart from the numerator so that a product of two
/// full-width counters never has to be formed.
#[derive(Clone, Copy, Debug, PartialEq, Eq, Structural)]
pub struct Exact {
    pub numerator: i128,
    pub multiplier: u64,
    pub denominator: u64,
}

impl Exact {
    /// A value is well formed when it has a denominator to divide by.
    pub open spec fn wf(self) -> bool {
        self.denominator > 0
    }

    /// The quantity times its denominator.
    pub open spec fn scaled(self) -> int {
        self.numerator * self.multiplier
    }

    /// Whether the quantity is zero.
    pub open spec fn is_zero(self) -> bool {
        self.scaled() == 0
    }

    /// Whether the quantity is zero or more.
    pub open spec fn is_non_negative(self) -> bool {
        self.scaled() >= 0
    }

    /// Whether the quantity is the fraction `n / d`.
    pub open spec fn is_fraction(self, n: int, d: int) -> bool
        recommends
            self.wf(),
            d > 0,
    {
        self.scaled() * d == n * self.denominator
    }

    /// Zero, written `0 × 1 / 1`.
    pub open spec fn zero_value() -> Exact {
        Exact { numerator: 0, multiplier: 1, denominator: 1 }
    }

    /// Zero.
    pub fn zero() -> (z: Exact)
        ensures
            z == Exact::zero_value(),
            z.wf(),
            z.is_zero(),
    {
        Exact { numerator: 0, multiplier: 1, denominator: 1 }
    }

    /// Whether the quantity is at least the whole number `whole`.
    pub fn at_least(&self, whole: u64) -> (reached: bool)
        ensures
            reached == (self.scaled() >= whole * self.denominator),
    {
        assert(whole * self.denominator <= 0xffff_ffff_ffff_ffff * 0xffff_ffff_ffff_ffff)
            by (nonlinear_arith)
            requires
                0 <= whole <= 0xffff_ffff_ffff_ffff,
                0 <= self.denominator <= 0xffff_ffff_ffff_ffff,
        ;
        let target: u128 = whole as u128 * self.denominator as u128;
        if target == 0 {
            let reached = self.numerator >= 0 || self.multiplier == 0;
            assert(reached == (self.scaled() >= 0)) by (nonlinear_arith)
                requires
                    self.scaled() == self.numerator * self.multiplier,
                    self.multiplier >= 0,
                    reached == (self.numerator >= 0 || self.multiplier == 0),
            ;
            reached
        } else if self.numerator <= 0 || self.multiplier == 0 {
            assert(self.scaled() <= 0) by (nonlinear_arith)
                requires
                    self.scaled() == self.numerator * self.multiplier,
                    self.multiplier >= 0,
                    self.numerator <= 0 || self.multiplier == 0,
            ;
            false
        } else {
            let multiplier = self.multiplier as u128;
            let needed: u128 = (target - 1) / multiplier + 1;
            let have = self.numerator as u128;
            let reached = have >= needed;
            assert(reached == (have * multiplier >= target)) by (nonlinear_arith)
                requires
                    multiplier > 0,
                    target > 0,
                    needed == (target - 1) / (multiplier as int) + 1,
                    reached == (have >= needed),
            ;
            reached
        }
    }
}

/// CPU accounting counters at one instant.
#[derive(Clone, Copy, Debug, PartialEq, Eq, Structural)]
pub struct CpuCounters {
    /// CPU time the container has used.
    pub total_usage: u64,
    /// CPU time the whole host has used, where the runtime reports it.
    pub system_cpu_usage: Option<u64>,
    /// Number of CPUs online, where the runtime reports it.
    pub online_cpus: Option<u64>,
}

/// The granular memory counters that tell how much of the usage is page
/// cache; which one does depends on the control group version.
#[derive(Clone, Copy, Debug, PartialEq, Eq, Structural)]
pub enum MemoryBreakdown {
    V1 { cache: u64 },
    V2 { inactive_file: u64 },
}

/// Memory accounting counters at one instant.
#[derive(Clone, Copy, Debug, PartialEq, Eq, Structural)]
pub struct MemoryCounters {
    pub usage: Option<u64>,
    pub limit: Option<u64>,
    pub stats: Option<MemoryBreakdown>,
}

/// One sample of a container's counters: the CPU counters now and at the
/// start of the accounting window, and the memory counters now.
#[derive(Clone, Copy, Debug, PartialEq, Eq, Structural)]
pub struct StatsSample {
    pub cpu_stats: CpuCounters,
    pub precpu_stats: CpuCounters,
    pub memory_stats: MemoryCounters,
}

/// `value`, or `default` where nothing was reported.
pub open spec fn reported_or(value: Option<u64>, default: u64) -> u64 {
    match value {
        Some(v) => v,
        None => default,
    }
}

impl StatsSample {
    /// CPU time the container used over the window. Negative after a
    /// counter reset.
    pub open spec fn cpu_delta(self) -> int {
        self.cpu_stats.total_usage - self.precpu_stats.total_usage
    }

    /// CPU time the host used over the window; a counter that was not
    /// reported counts as zero.
    pub open spec fn system_delta(self) -> int {
        reported_or(self.cpu_stats.system_cpu_usage, 0) - reported_or(
            self.precpu_stats.system_cpu_usage,
            0,
        )
    }

    /// CPUs online; one where the number was not reported.
    pub open spec fn cpus(self) -> u64 {
        reported_or(self.cpu_stats.online_cpus, 1)
    }

    /// Whether the window yields a CPU share at all: the host's counter
    /// advanced and the container's did not go backwards.
    pub open spec fn cpu_window_valid(self) -> bool {
        self.system_delta() > 0 && self.cpu_delta() >= 0
    }

    /// Bytes of page cache within the reported usage; zero where the
    /// breakdown was not reported.
    pub open spec fn cache(self) -> u64 {
        match self.memory_stats.stats {
            Some(MemoryBreakdown::V1 { cache }) => cache,
            Some(MemoryBreakdown::V2 { inactive_file }) => inactive_file,
            None => 0,
        }
    }

    /// Bytes in use once the page cache is taken off. Negative where the
    /// cache is reported larger than the usage.
    pub open spec fn working_set(self) -> int {
        reported_or(self.memory_stats.usage, 0) - self.cache()
    }

    /// The memory limit in bytes; one where none was reported.
    pub open spec fn limit(self) -> u64 {
        reported_or(self.memory_stats.limit, 1)
    }

    /// CPU use in percent of one CPU:
    /// `cpu_delta / system_delta × cpus × 100`, and zero where the window
    /// is not valid.
    pub open spec fn cpu_percent(self) -> Exact {
        if self.cpu_window_valid() {
            Exact {
                numerator: (self.cpu_delta() * 100) as i128,
                multiplier: self.cpus(),
                denominator: self.system_delta() as u64,
            }
        } else {
            Exact::zero_value()
        }
    }

    /// Memory in use, in mebibytes.
    pub open spec fn memory_usage_mb(self) -> Exact {
        Exact { numerator: self.working_set() as i128, multiplier: 1, denominator: BYTES_PER_MB }
    }

    /// The memory limit, in mebibytes.
    pub open spec fn memory_limit_mb(self) -> Exact {
        Exact { numerator: self.limit() as i128, multiplier: 1, denominator: BYTES_PER_MB }
    }

    /// Memory in use in percent of the limit, and zero where the limit is
    /// zero.
    pub open spec fn memory_percent(self) -> Exact {
        if self.limit() > 0 {
            Exact {
                numerator: (self.working_set() * 100) as i128,
                multiplier: 1,
                denominator: self.limit(),
            }
        } else {
            Exact::zero_value()
        }
    }
}

/// Resource usage of one container.
#[derive(Clone, Copy, Debug, PartialEq, Eq, Structural)]
pub struct ContainerStats {
    pub cpu_percent: Exact,
    pub memory_usage_mb: Exact,
    pub memory_limit_mb: Exact,
    pub memory_percent: Exact,
}

impl ContainerStats {
    /// Every quantity has a denominator, and the CPU share is not negative.
    pub open spec fn wf(self) -> bool {
        &&& self.cpu_percent.wf()
        &&& self.cpu_percent.is_non_negative()
        &&& self.memory_usage_mb.wf()
        &&& self.memory_limit_mb.wf()
        &&& self.memory_percent.wf()
    }

    /// The usage that a sample shows.
    pub open spec fn of_sample(sample: StatsSample) -> ContainerStats {
        ContainerStats {
            cpu_percent: sample.cpu_percent(),
            memory_usage_mb: sample.memory_usage_mb(),
            memory_limit_mb: sample.memory_limit_mb(),
            memory_percent: sample.memory_percent(),
        }
    }
}

fn value_or(value: Option<u64>, default: u64) -> (v: u64)
    ensures
        v == reported_or(value, default),
{
    match value {
        Some(v) => v,
        None => default,
    }
}

/// The CPU share that a sample shows, in percent of one CPU. It is zero
/// whenever the host's counter did not advance over the window, or the
/// container's counter went backwards; it is never negative.
pub fn calculate_cpu_percent(sample: &StatsSample) -> (percent: Exact)
    ensures
        percent == sample.cpu_percent(),
        percent.wf(),
        percent.is_non_negative(),
        sample.system_delta() <= 0 ==> percent.is_zero(),
        sample.cpu_delta() < 0 ==> percent.is_zero(),
        sample.cpu_window_valid() ==> percent.is_fraction(
            sample.cpu_delta() * sample.cpus() * 100,
            sample.system_delta(),
        ),
{
    let system_now = value_or(sample.cpu_stats.system_cpu_usage, 0);
    let system_before = value_or(sample.precpu_stats.system_cpu_usage, 0);
    let usage_now = sample.cpu_stats.total_usage;
    let usage_before = sample.precpu_stats.total_usage;
    if system_now > system_before && usage_now >= usage_before {
        let cpu_delta: u64 = usage_now - usage_before;
        let system_delta: u64 = system_now - system_before;
        let numerator: i128 = cpu_delta as i128 * 100;
        let percent = Exact {
            numerator,
            multiplier: value_or(sample.cpu_stats.online_cpus, 1),
            denominator: system_delta,
        };
        assert(percent.scaled() >= 0) by (nonlinear_arith)
            requires
                percent.scaled() == percent.numerator * percent.multiplier,
                percent.numerator >= 0,
                percent.multiplier >= 0,
        ;
        assert(percent.is_fraction(
            sample.cpu_delta() * sample.cpus() * 100,
            sample.system_delta(),
        )) by (nonlinear_arith)
            requires
                percent.scaled() == percent.numerator * percent.multiplier,
                percent.numerator == sample.cpu_delta() * 100,
                percent.multiplier == sample.cpus(),
                percent.denominator == sample.system_delta(),
        ;
        percent
    } else {
        Exact::zero()
    }
}

/// The memory use that a sample shows: mebibytes in use, the limit in
/// mebibytes, and the use in percent of the limit. The page cache is taken
/// off the reported usage before anything is derived from it.
pub fn calculate_memory(sample: &StatsSample) -> (memory: (Exact, Exact, Exact))
    ensures
        memory.0 == sample.memory_usage_mb(),
        memory.1 == sample.memory_limit_mb(),
        memory.2 == sample.memory_percent(),
        memory.0.wf() && memory.1.wf() && memory.2.wf(),
        memory.0.is_fraction(sample.working_set(), BYTES_PER_MB as int),
        memory.1.is_fraction(sample.limit() as int, BYTES_PER_MB as int),
        sample.limit() > 0 ==> memory.2.is_fraction(
            sample.working_set() * 100,
            sample.limit() as int,
        ),
        sample.limit() == 0 ==> memory.2.is_zero(),
{
    let usage = value_or(sample.memory_stats.usage, 0);
    let limit = value_or(sample.memory_stats.limit, 1);
    let cache = match sample.memory_stats.stats {
        Some(MemoryBreakdown::V1 { cache }) => cache,
        Some(MemoryBreakdown::V2 { inactive_file }) => inactive_file,
        None => 0,
    };
    let actual_usage: i128 = usage as i128 - cache as i128;
    let usage_mb = Exact { numerator: actual_usage, multiplier: 1, denominator: BYTES_PER_MB };
    let limit_mb = Exact { numerator: limit as i128, multiplier: 1, denominator: BYTES_PER_MB };
    let percent = if limit > 0 {
        Exact { numerator: actual_usage * 100, multiplier: 1, denominator: limit }
    } else {
        Exact::zero()
    };
    (usage_mb, limit_mb, percent)
}

/// Memory use is derived from the working set, not from the raw usage:
/// two samples whose usage less cache is the same, under the same limit,
/// show the same memory use, however usage and cache differ between them.
pub proof fn lemma_memory_goes_by_working_set(first: StatsSample, second: StatsSample)
    requires
        first.working_set() == second.working_set(),
        first.limit() == second.limit(),
    ensures
        first.memory_usage_mb() == second.memory_usage_mb(),
        first.memory_limit_mb() == second.memory_limit_mb(),
        first.memory_percent() == second.memory_percent(),
{
}

/// The CPU share is zero, and so neither negative nor undefined, whenever
/// the host's counter did not advance over the window.
pub proof fn lemma_cpu_percent_zero_without_window(sample: StatsSample)
    requires
        sample.system_delta() <= 0,
    ensures
        sample.cpu_percent() == Exact::zero_value(),
        sample.cpu_percent().wf(),
        sample.cpu_percent().is_zero(),
{
}

/// The usage that a sample shows.
pub fn stats_from_sample(sample: &StatsSample) -> (stats: ContainerStats)
    ensures
        stats == ContainerStats::of_sample(*sample),
        stats.wf(),
{
    let cpu_percent = calculate_cpu_percent(sample);
    let (memory_usage_mb, memory_limit_mb, memory_percent) = calculate_memory(sample);
    ContainerStats { cpu_percent, memory_usage_mb, memory_limit_mb, memory_percent }
}

/// What one attempt to sample a container came to: nothing at all, a
/// failure with its message, or a sample.
pub open spec fn sample_taken(outcome: Option<Result<StatsSample, String>>) -> Option<StatsSample> {
    match outcome {
        Some(Ok(sample)) => Some(sample),
        _ => None,
    }
}

/// The mapping from container id to usage that a round of sampling yields.
/// A container whose sample was not taken has no entry, and where an id
/// occurs twice the later outcome decides.
pub open spec fn stats_by_id(outcomes: Seq<(String, Option<Result<StatsSample, String>>)>) -> Map<
    Seq<char>,
    ContainerStats,
>
    decreases outcomes.len(),
{
    if outcomes.len() == 0 {
        Map::empty()
    } else {
        let earlier = stats_by_id(outcomes.drop_last());
        let (id, outcome) = outcomes.last();
        match sample_taken(outcome) {
            Some(sample) => earlier.insert(id@, ContainerStats::of_sample(sample)),
            None => earlier,
        }
    }
}

/// An id has an entry exactly when a sample of it was taken.
pub proof fn lemma_stats_by_id_domain(
    outcomes: Seq<(String, Option<Result<StatsSample, String>>)>,
    id: Seq<char>,
)
    ensures
        stats_by_id(outcomes).contains_key(id) <==> exists|i: int|
            0 <= i < outcomes.len() && (#[trigger] outcomes[i]).0@ == id && sample_taken(
                outcomes[i].1,
            ) is Some,
    decreases outcomes.len(),
{
    if outcomes.len() > 0 {
        let earlier = outcomes.drop_last();
        lemma_stats_by_id_domain(earlier, id);
        let last = outcomes.len() - 1;
        if stats_by_id(outcomes).contains_key(id) {
            if stats_by_id(earlier).contains_key(id) {
                let i = choose|i: int|
                    0 <= i < earlier.len() && (#[trigger] earlier[i]).0@ == id && sample_taken(
                        earlier[i].1,
                    ) is Some;
                assert(outcomes[i] == earlier[i]);
            } else {
                assert(outcomes[last].0@ == id && sample_taken(outcomes[last].1) is Some);
            }
        }
        if exists|i: int|
            0 <= i < outcomes.len() && (#[trigger] outcomes[i]).0@ == id && sample_taken(
                outcomes[i].1,
            ) is Some {
            let i = choose|i: int|
                0 <= i < outcomes.len() && (#[trigger] outcomes[i]).0@ == id && sample_taken(
                    outcomes[i].1,
                ) is Some;
            if i < last {
                assert(earlier[i] == outcomes[i]);
            }
        }
    }
}

/// Folds a round of sampling into the mapping from container id to usage
/// that replaces the one before. A container that gave no sample is left
/// out; that is no failure of the round.
pub fn fetch_stats(outcomes: &[(String, Option<Result<StatsSample, String>>)]) -> (stats:
    StringHashMap<ContainerStats>)
    ensures
        stats@ == stats_by_id(outcomes@),
        forall|id: Seq<char>| stats@.contains_key(id) ==> (#[trigger] stats@[id]).wf(),
{
    let mut stats: StringHashMap<ContainerStats> = StringHashMap::new();
    let mut i: usize = 0;
    assert(outcomes@.take(0) =~= Seq::empty());
    while i < outcomes.len()
        invariant
            i <= outcomes.len(),
            stats@ == stats_by_id(outcomes@.take(i as int)),
            forall|id: Seq<char>| stats@.contains_key(id) ==> (#[trigger] stats@[id]).wf(),
        decreases outcomes.len() - i,
    {
        assert(outcomes@.take(i + 1).drop_last() =~= outcomes@.take(i as int));
        assert(outcomes@.take(i + 1).last() == outcomes@[i as int]);
        let outcome = &outcomes[i];
        match &outcome.1 {
            Some(Ok(sample)) => {
                stats.insert(outcome.0.clone(), stats_from_sample(sample));
            },
            _ => {},
        }
        i += 1;
    }
    assert(outcomes@.take(i as int) =~= outcomes@);
    stats
}

} // verus!
