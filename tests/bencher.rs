use bench::bencher::{saturate_nanos, summarize, Bencher, Measurement, MAX_SAMPLE_NANOS};
use bench::config::BencherConfig;
use bench::stats::{Deviation, Mean, StatsError};
use std::time::{Duration, Instant};

#[test]
fn config_rejects_zero_batch_size() {
    assert!(BencherConfig::new(1, 0, 1).is_none());
}

#[test]
fn config_rejects_zero_samples() {
    assert!(BencherConfig::new(1, 1, 0).is_none());
}

#[test]
fn config_keeps_its_counts() {
    let c = BencherConfig::new(0, 3, 4).unwrap();
    assert_eq!(c.warm_ups(), 0);
    assert_eq!(c.batch_size(), 3);
    assert_eq!(c.samples(), 4);
    let b = Bencher::new(c);
    assert_eq!(b.config().batch_size(), 3);
}

#[test]
fn counting_operation_runs_six_times() {
    let bencher = Bencher::new(BencherConfig::new(2, 2, 2).unwrap());
    let mut counter: u64 = 0;
    let durations = bencher.sample(|| {
        counter += 1;
        counter
    });
    assert_eq!(counter, 6);
    assert_eq!(durations.len(), 2);
}

#[test]
fn measure_counts_calls_and_reports_stats() {
    let bencher = Bencher::new(BencherConfig::new(2, 2, 2).unwrap());
    let mut counter: u64 = 0;
    let m = bencher.measure(|| {
        counter += 1;
        counter
    });
    assert_eq!(counter, 6);
    assert_eq!(m.mean.count, 2);
    assert_eq!(m.deviation.count, 2);
    assert_eq!(m.batch_size, 2);
    let mean_sec = m.mean.total as f64 / (2.0 * 2.0) / 1e9;
    let sum = m.deviation.sq_dev_hi as f64 * 2f64.powi(128) + m.deviation.sq_dev_lo as f64;
    let r = m.deviation.remainder as f64;
    let std_dev_sec = ((sum - r * r / 2.0) / 2.0).sqrt() / 2.0 / 1e9;
    assert!(mean_sec >= 0.0);
    assert!(std_dev_sec >= 0.0);
}

#[test]
fn calls_equal_warm_ups_plus_batches() {
    let bencher = Bencher::new(BencherConfig::new(3, 4, 5).unwrap());
    let mut counter: u64 = 0;
    let durations = bencher.sample(|| {
        counter += 1;
        counter
    });
    assert_eq!(counter, 3 + 4 * 5);
    assert_eq!(durations.len(), 5);
}

#[test]
fn no_warm_ups_single_call() {
    let bencher = Bencher::new(BencherConfig::new(0, 1, 1).unwrap());
    let mut counter: u64 = 0;
    let durations = bencher.sample(|| {
        counter += 1;
        counter
    });
    assert_eq!(counter, 1);
    assert_eq!(durations.len(), 1);
}

#[test]
fn bencher_is_reusable() {
    let bencher = Bencher::new(BencherConfig::new(1, 2, 3).unwrap());
    let mut counter: u64 = 0;
    bencher.sample(|| {
        counter += 1;
        counter
    });
    bencher.sample(|| {
        counter += 1;
        counter
    });
    assert_eq!(counter, 2 * (1 + 2 * 3));
}

#[test]
fn fixed_delay_is_measured_per_call() {
    let delay = Duration::from_millis(2);
    let bencher = Bencher::new(BencherConfig::new(1, 3, 3).unwrap());
    let m = bencher.measure(|| {
        let start = Instant::now();
        while start.elapsed() < delay {}
        0u8
    });
    let per_call_nanos = m.mean.total as f64 / (m.mean.count as f64 * m.batch_size as f64);
    assert!(per_call_nanos >= 2e6);
    assert!(per_call_nanos < 1e9);
}

#[test]
fn summarize_normalises_by_batch() {
    let m = summarize(&[10, 20, 30], 5).unwrap();
    assert_eq!(
        m,
        Measurement {
            mean: Mean { total: 60, count: 3 },
            deviation: Deviation { sq_dev_hi: 0, sq_dev_lo: 200, remainder: 0, count: 3 },
            batch_size: 5,
        }
    );
    let per_call = m.mean.total as f64 / (m.mean.count as f64 * m.batch_size as f64);
    assert_eq!(per_call, 4.0);
}

#[test]
fn summarize_empty_and_extreme() {
    assert_eq!(summarize(&[], 1), Err(StatsError::EmptyInput));
    let m = summarize(&[u64::MAX, 0], 1).unwrap();
    assert_eq!(m.mean, Mean { total: u64::MAX as u128, count: 2 });
    assert_eq!(m.deviation.remainder, 1);
}

#[test]
fn saturating_nanos() {
    assert_eq!(saturate_nanos(1234), 1234);
    assert_eq!(saturate_nanos(MAX_SAMPLE_NANOS as u128), MAX_SAMPLE_NANOS);
    assert_eq!(saturate_nanos(u128::MAX), MAX_SAMPLE_NANOS);
}

#[test]
fn single_sample_has_zero_deviation() {
    let bencher = Bencher::new(BencherConfig::new(1, 2, 1).unwrap());
    let mut counter: u64 = 0;
    let m = bencher.measure(|| {
        counter += 1;
        counter
    });
    assert_eq!(counter, 3);
    assert_eq!(m.mean.count, 1);
    assert_eq!(m.deviation, Deviation { sq_dev_hi: 0, sq_dev_lo: 0, remainder: 0, count: 1 });
}
