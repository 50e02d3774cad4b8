use grpc_demo_core::bid::{next_bid, MICROS_PER_UNIT};

fn micros(units: f64) -> u64 {
    (units * 1_000_000.0).round() as u64
}

fn ratio(units: f64) -> i64 {
    (units * 1_000_000.0).round() as i64
}

#[test]
fn one_unit_is_a_million_micros() {
    assert_eq!(MICROS_PER_UNIT, 1_000_000);
    assert_eq!(micros(1.0), MICROS_PER_UNIT);
}

#[test]
fn bid_is_the_target_when_the_budget_allows() {
    // target = 2.0 * 5.0 = 10.0
    assert_eq!(next_bid(micros(1000.0), ratio(2.0), micros(5.0)), micros(10.0));
}

#[test]
fn bid_is_capped_by_what_remains() {
    assert_eq!(next_bid(micros(3.0), ratio(2.0), micros(5.0)), micros(3.0));
}

#[test]
fn bid_equals_target_at_the_boundary() {
    assert_eq!(next_bid(micros(10.0), ratio(2.0), micros(5.0)), micros(10.0));
    assert_eq!(next_bid(micros(10.0) - 1, ratio(2.0), micros(5.0)), micros(10.0) - 1);
    assert_eq!(next_bid(micros(10.0) + 1, ratio(2.0), micros(5.0)), micros(10.0));
}

#[test]
fn zero_roas_gives_zero_bid() {
    assert_eq!(next_bid(micros(100.0), ratio(0.0), micros(5.0)), 0);
}

#[test]
fn negative_roas_gives_zero_bid() {
    assert_eq!(next_bid(micros(100.0), ratio(-3.5), micros(5.0)), 0);
    assert_eq!(next_bid(u64::MAX, i64::MIN, u64::MAX), 0);
}

#[test]
fn exhausted_budget_gives_zero_bid() {
    assert_eq!(next_bid(0, ratio(2.0), micros(5.0)), 0);
    assert_eq!(next_bid(0, i64::MAX, u64::MAX), 0);
}

#[test]
fn zero_cost_gives_zero_bid() {
    assert_eq!(next_bid(micros(100.0), ratio(2.0), 0), 0);
}

#[test]
fn target_is_rounded_down_to_a_micro_unit() {
    // 0.333333 * 0.000002 = 0.000000666666 -> 0 micro-units
    assert_eq!(next_bid(micros(1.0), 333_333, 2), 0);
    // 1.5 * 0.000003 = 0.0000045 -> 4 micro-units
    assert_eq!(next_bid(micros(1.0), 1_500_000, 3), 4);
}

#[test]
fn largest_inputs_do_not_overflow() {
    assert_eq!(next_bid(u64::MAX, i64::MAX, u64::MAX), u64::MAX);
    let target: u128 = (i64::MAX as u128) * 1_000_000u128 / 1_000_000u128;
    assert_eq!(next_bid(u64::MAX, i64::MAX, 1_000_000) as u128, target);
}

#[test]
fn bid_formula_on_a_grid_of_values() {
    let remainings: Vec<u64> = vec![0, 1, 999_999, 1_000_000, 7_500_000, 1_000_000_000];
    let ratios: Vec<i64> = vec![-2_000_000, -1, 0, 1, 500_000, 2_000_000, 9_999_999];
    let costs: Vec<u64> = vec![0, 1, 5_000_000, 123_456_789];
    for remaining in remainings.iter() {
        for roas in ratios.iter() {
            for cost in costs.iter() {
                let product: i128 = (*roas as i128) * (*cost as i128);
                let scaled: i128 = product.div_euclid(1_000_000);
                let expected: i128 = (*remaining as i128).min(scaled.max(0));
                assert_eq!(next_bid(*remaining, *roas, *cost) as i128, expected);
            }
        }
    }
}
