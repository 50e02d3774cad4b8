use grpc_demo_core::bench::BenchmarkResult;

#[test]
fn figures_start_empty() {
    let result = BenchmarkResult::new();
    assert_eq!(result.requests, 0);
    assert_eq!(result.errors, 0);
    assert_eq!(result.min_latency, u128::MAX);
    assert_eq!(result.max_latency, 0);
    assert_eq!(result.total_latency, 0);
    assert_eq!(result.average_latency(), None);
    assert_eq!(result.successes(), 0);
}

#[test]
fn record_tracks_least_greatest_and_total() {
    let mut result = BenchmarkResult::new();
    result.record(300, true);
    result.record(100, false);
    result.record(250, true);
    assert_eq!(
        result,
        BenchmarkResult {
            requests: 3,
            errors: 1,
            min_latency: 100,
            max_latency: 300,
            total_latency: 650,
        }
    );
    // 650 / 3 = 216
    assert_eq!(result.average_latency(), Some(216));
    assert_eq!(result.successes(), 2);
}

#[test]
fn client_that_could_not_connect_counts_only_errors() {
    let result = BenchmarkResult::not_connected(100);
    assert_eq!(
        result,
        BenchmarkResult {
            requests: 0,
            errors: 100,
            min_latency: 0,
            max_latency: 0,
            total_latency: 0,
        }
    );
    assert_eq!(result.average_latency(), None);
    assert_eq!(result.successes(), 0);
}

#[test]
fn merge_takes_clients_together() {
    let mut first = BenchmarkResult::new();
    first.record(40, true);
    first.record(60, true);
    let mut second = BenchmarkResult::new();
    second.record(10, false);
    second.record(90, true);
    let mut total = BenchmarkResult::new();
    total.merge(&first);
    total.merge(&second);
    assert_eq!(
        total,
        BenchmarkResult {
            requests: 4,
            errors: 1,
            min_latency: 10,
            max_latency: 90,
            total_latency: 200,
        }
    );
    assert_eq!(total.average_latency(), Some(50));
}

#[test]
fn counts_and_totals_stop_at_the_largest_value() {
    let mut result = BenchmarkResult {
        requests: u64::MAX,
        errors: u64::MAX - 1,
        min_latency: 5,
        max_latency: 5,
        total_latency: u128::MAX - 1,
    };
    result.record(7, false);
    assert_eq!(result.requests, u64::MAX);
    assert_eq!(result.errors, u64::MAX);
    assert_eq!(result.total_latency, u128::MAX);
    result.record(7, false);
    assert_eq!(result.errors, u64::MAX);
    let other = result;
    result.merge(&other);
    assert_eq!(result.requests, u64::MAX);
    assert_eq!(result.total_latency, u128::MAX);
}
