use cosmic_applet_docker::stats::{
    calculate_cpu_percent, calculate_memory, fetch_stats, stats_from_sample, CpuCounters, Exact,
    MemoryBreakdown, MemoryCounters, StatsSample, BYTES_PER_MB,
};

fn as_f64(value: &Exact) -> f64 {
    value.numerator as f64 / value.denominator as f64 * value.multiplier as f64
}

fn cpu(total_usage: u64, system_cpu_usage: Option<u64>, online_cpus: Option<u64>) -> CpuCounters {
    CpuCounters { total_usage, system_cpu_usage, online_cpus }
}

fn no_memory() -> MemoryCounters {
    MemoryCounters { usage: None, limit: None, stats: None }
}

fn window(
    usage_before: u64,
    usage_now: u64,
    system_before: Option<u64>,
    system_now: Option<u64>,
    cpus: Option<u64>,
) -> StatsSample {
    StatsSample {
        cpu_stats: cpu(usage_now, system_now, cpus),
        precpu_stats: cpu(usage_before, system_before, cpus),
        memory_stats: no_memory(),
    }
}

fn memory(usage: Option<u64>, limit: Option<u64>, stats: Option<MemoryBreakdown>) -> StatsSample {
    StatsSample {
        cpu_stats: cpu(0, None, None),
        precpu_stats: cpu(0, None, None),
        memory_stats: MemoryCounters { usage, limit, stats },
    }
}

#[test]
fn cpu_percent_of_a_fifth_of_two_cpus_is_forty() {
    let sample = window(500, 700, Some(4000), Some(5000), Some(2));
    let percent = calculate_cpu_percent(&sample);
    assert_eq!(percent, Exact { numerator: 20_000, multiplier: 2, denominator: 1000 });
    assert_eq!(as_f64(&percent), 40.0);
}

#[test]
fn cpu_percent_counts_one_cpu_when_none_is_reported() {
    let sample = window(0, 250, Some(0), Some(1000), None);
    let percent = calculate_cpu_percent(&sample);
    assert_eq!(percent, Exact { numerator: 25_000, multiplier: 1, denominator: 1000 });
    assert_eq!(as_f64(&percent), 25.0);
}

#[test]
fn cpu_percent_is_zero_when_system_counter_stands_still() {
    let percent = calculate_cpu_percent(&window(500, 700, Some(4000), Some(4000), Some(2)));
    assert_eq!(percent, Exact { numerator: 0, multiplier: 1, denominator: 1 });
    assert_eq!(as_f64(&percent), 0.0);
}

#[test]
fn cpu_percent_is_zero_when_system_counter_goes_back() {
    let percent = calculate_cpu_percent(&window(500, 700, Some(4000), Some(3000), Some(2)));
    assert_eq!(as_f64(&percent), 0.0);
    assert!(!as_f64(&percent).is_nan());
}

#[test]
fn cpu_percent_is_zero_when_system_counter_is_missing() {
    let percent = calculate_cpu_percent(&window(500, 700, None, None, Some(4)));
    assert_eq!(as_f64(&percent), 0.0);
    let percent = calculate_cpu_percent(&window(500, 700, Some(10), None, Some(4)));
    assert_eq!(as_f64(&percent), 0.0);
}

#[test]
fn cpu_percent_is_zero_when_usage_counter_goes_back() {
    let percent = calculate_cpu_percent(&window(700, 500, Some(4000), Some(5000), Some(2)));
    assert_eq!(percent, Exact { numerator: 0, multiplier: 1, denominator: 1 });
}

#[test]
fn cpu_percent_is_zero_without_usage() {
    let percent = calculate_cpu_percent(&window(500, 500, Some(4000), Some(5000), Some(2)));
    assert_eq!(as_f64(&percent), 0.0);
    assert_eq!(percent.denominator, 1000);
}

#[test]
fn cpu_percent_holds_the_largest_counters() {
    let sample = window(0, u64::MAX, Some(0), Some(u64::MAX), Some(u64::MAX));
    let percent = calculate_cpu_percent(&sample);
    assert_eq!(percent.numerator, u64::MAX as i128 * 100);
    assert_eq!(percent.multiplier, u64::MAX);
    assert_eq!(percent.denominator, u64::MAX);
}

#[test]
fn memory_takes_the_cache_off_before_percent() {
    let sample = memory(
        Some(300 * BYTES_PER_MB),
        Some(1000 * BYTES_PER_MB),
        Some(MemoryBreakdown::V1 { cache: 100 * BYTES_PER_MB }),
    );
    let (usage_mb, limit_mb, percent) = calculate_memory(&sample);
    assert_eq!(usage_mb.numerator, 200 * BYTES_PER_MB as i128);
    assert_eq!(as_f64(&usage_mb), 200.0);
    assert_eq!(as_f64(&limit_mb), 1000.0);
    assert_eq!(percent.numerator, 200 * BYTES_PER_MB as i128 * 100);
    assert_eq!(percent.denominator, 1000 * BYTES_PER_MB);
    assert_eq!(as_f64(&percent), 20.0);
}

#[test]
fn memory_takes_inactive_file_as_cache_on_v2() {
    let sample = memory(
        Some(512 * BYTES_PER_MB),
        Some(2048 * BYTES_PER_MB),
        Some(MemoryBreakdown::V2 { inactive_file: 256 * BYTES_PER_MB }),
    );
    let (usage_mb, limit_mb, percent) = calculate_memory(&sample);
    assert_eq!(as_f64(&usage_mb), 256.0);
    assert_eq!(as_f64(&limit_mb), 2048.0);
    assert_eq!(as_f64(&percent), 12.5);
}

#[test]
fn memory_without_breakdown_has_no_cache() {
    let sample = memory(Some(50 * BYTES_PER_MB), Some(100 * BYTES_PER_MB), None);
    let (usage_mb, _, percent) = calculate_memory(&sample);
    assert_eq!(as_f64(&usage_mb), 50.0);
    assert_eq!(as_f64(&percent), 50.0);
}

#[test]
fn memory_defaults_usage_to_zero_and_limit_to_one() {
    let (usage_mb, limit_mb, percent) = calculate_memory(&memory(None, None, None));
    assert_eq!(usage_mb, Exact { numerator: 0, multiplier: 1, denominator: BYTES_PER_MB });
    assert_eq!(limit_mb, Exact { numerator: 1, multiplier: 1, denominator: BYTES_PER_MB });
    assert_eq!(percent, Exact { numerator: 0, multiplier: 1, denominator: 1 });
}

#[test]
fn memory_percent_is_zero_when_limit_is_zero() {
    let (_, limit_mb, percent) = calculate_memory(&memory(Some(4096), Some(0), None));
    assert_eq!(as_f64(&limit_mb), 0.0);
    assert_eq!(percent, Exact { numerator: 0, multiplier: 1, denominator: 1 });
}

#[test]
fn memory_may_fall_below_zero_when_cache_exceeds_usage() {
    let sample = memory(Some(10), Some(100), Some(MemoryBreakdown::V1 { cache: 30 }));
    let (usage_mb, _, percent) = calculate_memory(&sample);
    assert_eq!(usage_mb.numerator, -20);
    assert_eq!(as_f64(&percent), -20.0);
}

#[test]
fn stats_from_sample_holds_all_four_quantities() {
    let sample = StatsSample {
        cpu_stats: cpu(700, Some(5000), Some(2)),
        precpu_stats: cpu(500, Some(4000), Some(2)),
        memory_stats: MemoryCounters {
            usage: Some(3 * BYTES_PER_MB),
            limit: Some(4 * BYTES_PER_MB),
            stats: Some(MemoryBreakdown::V1 { cache: BYTES_PER_MB }),
        },
    };
    let stats = stats_from_sample(&sample);
    assert_eq!(as_f64(&stats.cpu_percent), 40.0);
    assert_eq!(as_f64(&stats.memory_usage_mb), 2.0);
    assert_eq!(as_f64(&stats.memory_limit_mb), 4.0);
    assert_eq!(as_f64(&stats.memory_percent), 50.0);
}

#[test]
fn fetch_stats_leaves_out_containers_without_sample() {
    let sample = window(500, 700, Some(4000), Some(5000), Some(2));
    let outcomes = vec![
        ("a".to_string(), Some(Ok(sample))),
        ("b".to_string(), Some(Err("no such container".to_string()))),
        ("c".to_string(), None),
    ];
    let stats = fetch_stats(&outcomes);
    assert_eq!(stats.len(), 1);
    assert_eq!(as_f64(&stats.get("a").expect("a was sampled").cpu_percent), 40.0);
    assert!(stats.get("b").is_none());
    assert!(stats.get("c").is_none());
}

#[test]
fn fetch_stats_of_nothing_is_empty() {
    assert!(fetch_stats(&[]).is_empty());
}

#[test]
fn fetch_stats_lets_the_later_outcome_decide() {
    let first = window(0, 100, Some(0), Some(1000), Some(1));
    let second = window(0, 500, Some(0), Some(1000), Some(1));
    let outcomes = vec![
        ("a".to_string(), Some(Ok(first))),
        ("a".to_string(), Some(Ok(second))),
        ("a".to_string(), None),
    ];
    let stats = fetch_stats(&outcomes);
    assert_eq!(stats.len(), 1);
    assert_eq!(as_f64(&stats.get("a").expect("a was sampled").cpu_percent), 50.0);
}
