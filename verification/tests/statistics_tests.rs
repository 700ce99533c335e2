use media_bench::harness::{BenchmarkResult, Harness, HarnessAction, HarnessError};
use media_bench::statistics::{integer_sqrt, summarize, Statistics, StatisticsError};

const SECOND: u64 = 1_000_000_000;

#[test]
fn integer_sqrt_rounds_down() {
    assert_eq!(integer_sqrt(0), 0);
    assert_eq!(integer_sqrt(1), 1);
    assert_eq!(integer_sqrt(2), 1);
    assert_eq!(integer_sqrt(3), 1);
    assert_eq!(integer_sqrt(4), 2);
    assert_eq!(integer_sqrt(8), 2);
    assert_eq!(integer_sqrt(9), 3);
    assert_eq!(integer_sqrt(99), 9);
    assert_eq!(integer_sqrt(100), 10);
    assert_eq!(integer_sqrt(1_000_000_000_000_000_000), 1_000_000_000);
    assert_eq!(integer_sqrt(999_999_999_999_999_999), 999_999_999);
    assert_eq!(integer_sqrt(u128::MAX), u64::MAX);
    assert_eq!(integer_sqrt((u64::MAX as u128) * (u64::MAX as u128)), u64::MAX);
    assert_eq!(integer_sqrt((u64::MAX as u128) * (u64::MAX as u128) - 1), u64::MAX - 1);
}

#[test]
fn durations_one_two_three_give_mean_two_and_deviation_one() {
    let statistics = summarize(&[SECOND, 2 * SECOND, 3 * SECOND]).unwrap();
    assert_eq!(
        statistics,
        Statistics { count: 3, mean: 2 * SECOND, deviation: Some(SECOND) }
    );
    let mean_seconds = statistics.mean as f64 / SECOND as f64;
    let deviation_seconds = statistics.deviation.unwrap() as f64 / SECOND as f64;
    assert_eq!(mean_seconds, 2.0);
    assert_eq!(deviation_seconds, 1.0);
}

#[test]
fn statistics_round_down() {
    assert_eq!(
        summarize(&[10, 20, 40, 50, 7]),
        Ok(Statistics { count: 5, mean: 25, deviation: Some(18) })
    );
    assert_eq!(summarize(&[1, 2]), Ok(Statistics { count: 2, mean: 1, deviation: Some(0) }));
    assert_eq!(summarize(&[0, 10]), Ok(Statistics { count: 2, mean: 5, deviation: Some(7) }));
    assert_eq!(summarize(&[5, 5, 5, 5]), Ok(Statistics { count: 4, mean: 5, deviation: Some(0) }));
}

#[test]
fn no_samples_have_no_statistics() {
    assert_eq!(summarize(&[]), Err(StatisticsError::NoSamples));
}

#[test]
fn single_sample_has_no_deviation() {
    assert_eq!(summarize(&[42]), Ok(Statistics { count: 1, mean: 42, deviation: None }));
    assert_eq!(
        summarize(&[u64::MAX]),
        Ok(Statistics { count: 1, mean: u64::MAX, deviation: None })
    );
}

#[test]
fn samples_too_large_overflow() {
    assert_eq!(summarize(&[u64::MAX, u64::MAX]), Err(StatisticsError::Overflow));
    assert_eq!(summarize(&[u64::MAX, 0]), Err(StatisticsError::Overflow));
    assert_eq!(summarize(&[0, u64::MAX, 0]), Err(StatisticsError::Overflow));
    let large = 1u64 << 63;
    assert_eq!(
        summarize(&[large, 0]),
        Ok(Statistics { count: 2, mean: 1 << 62, deviation: Some(6521908912666391106) })
    );
}

#[test]
fn harness_runs_the_asked_number_of_times() {
    let mut harness: Harness<u8> = Harness::new("Read file".to_string(), 3).unwrap();
    let mut runs = 0u64;
    while harness.next_action() == HarnessAction::Run {
        runs += 1;
        assert_eq!(harness.completed() as u64, runs - 1);
        harness = harness.record(runs * SECOND, runs as u8);
    }
    assert_eq!(runs, 3);
    assert_eq!(harness.next_action(), HarnessAction::Report);
    let result = harness.finish().unwrap();
    assert_eq!(
        result,
        BenchmarkResult {
            label: "Read file".to_string(),
            statistics: Statistics { count: 3, mean: 2 * SECOND, deviation: Some(SECOND) },
            last_output: 3,
        }
    );
    assert_eq!(result.statistics.mean as f64 / 1e9, 2.0);
    assert_eq!(result.statistics.deviation.unwrap() as f64 / 1e9, 1.0);
}

#[test]
fn harness_refuses_fewer_than_one_iteration() {
    assert_eq!(Harness::<u8>::new("x".to_string(), 0), Err(HarnessError::NoIterations));
    assert_eq!(Harness::<u8>::new("x".to_string(), -4), Err(HarnessError::NoIterations));
    assert_eq!(Harness::<u8>::new("x".to_string(), i32::MIN), Err(HarnessError::NoIterations));
    assert!(Harness::<u8>::new("x".to_string(), 1).is_ok());
}

#[test]
fn harness_single_iteration_reports_no_deviation() {
    let harness: Harness<&str> = Harness::new("Transcoded file".to_string(), 1).unwrap();
    assert_eq!(harness.next_action(), HarnessAction::Run);
    let harness = harness.record(1_500_000_000, "only");
    assert_eq!(harness.next_action(), HarnessAction::Report);
    assert_eq!(
        harness.finish(),
        Ok(BenchmarkResult {
            label: "Transcoded file".to_string(),
            statistics: Statistics { count: 1, mean: 1_500_000_000, deviation: None },
            last_output: "only",
        })
    );
}

#[test]
fn harness_is_incomplete_until_the_last_run() {
    let harness: Harness<u8> = Harness::new("x".to_string(), 2).unwrap();
    assert_eq!(harness.finish(), Err(HarnessError::Incomplete));
    let harness: Harness<u8> = Harness::new("x".to_string(), 2).unwrap().record(5, 1);
    assert_eq!(harness.completed(), 1);
    assert_eq!(harness.finish(), Err(HarnessError::Incomplete));
}

#[test]
fn harness_does_not_count_runs_beyond_the_last() {
    let harness: Harness<u8> = Harness::new("x".to_string(), 2).unwrap();
    let harness = harness.record(10, 1).record(20, 2).record(1000, 3);
    assert_eq!(harness.completed(), 2);
    assert_eq!(
        harness.finish(),
        Ok(BenchmarkResult {
            label: "x".to_string(),
            statistics: Statistics { count: 2, mean: 15, deviation: Some(7) },
            last_output: 2,
        })
    );
}

#[test]
fn harness_reports_overflow() {
    let harness: Harness<u8> = Harness::new("x".to_string(), 2).unwrap();
    let harness = harness.record(u64::MAX, 1).record(u64::MAX, 2);
    assert_eq!(harness.finish(), Err(HarnessError::Overflow));
}
