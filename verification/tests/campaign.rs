use grpc_demo_core::campaign::Campaign;

fn micros(units: f64) -> u64 {
    (units * 1_000_000.0).round() as u64
}

fn ratio(units: f64) -> i64 {
    (units * 1_000_000.0).round() as i64
}

#[test]
fn test_campaign_creation() {
    let campaign = Campaign::new(micros(100.0), ratio(2.0));
    assert_eq!(campaign.remaining_budget, micros(100.0));
    assert_eq!(campaign.roas, ratio(2.0));
}

#[test]
fn test_next_bid_basic_calculation() {
    let campaign = Campaign::new(micros(100.0), ratio(2.0));
    let bid = campaign.next_bid();
    // 12.0 / 2.0 = 6.0, min(100.0, 6.0) = 6.0
    assert_eq!(bid, micros(6.0));
}

#[test]
fn test_next_bid_budget_limited() {
    let campaign = Campaign::new(micros(3.0), ratio(2.0));
    let bid = campaign.next_bid();
    // 12.0 / 2.0 = 6.0, min(3.0, 6.0) = 3.0
    assert_eq!(bid, micros(3.0));
}

#[test]
fn test_next_bid_high_roas() {
    let campaign = Campaign::new(micros(100.0), ratio(4.0));
    let bid = campaign.next_bid();
    // 12.0 / 4.0 = 3.0, min(100.0, 3.0) = 3.0
    assert_eq!(bid, micros(3.0));
}

#[test]
fn test_next_bid_zero_roas() {
    let campaign = Campaign::new(micros(100.0), ratio(0.0));
    let bid = campaign.next_bid();
    // a ratio of zero disables bidding
    assert_eq!(bid, micros(0.0));
}

#[test]
fn test_next_bid_very_small_roas() {
    let campaign = Campaign::new(micros(100.0), ratio(0.5));
    let bid = campaign.next_bid();
    // 12.0 / 0.5 = 24.0, min(100.0, 24.0) = 24.0
    assert_eq!(bid, micros(24.0));
}

#[test]
fn test_next_bid_zero_budget() {
    let campaign = Campaign::new(micros(0.0), ratio(2.0));
    let bid = campaign.next_bid();
    // 12.0 / 2.0 = 6.0, min(0.0, 6.0) = 0.0
    assert_eq!(bid, micros(0.0));
}

#[test]
fn test_bid_calculation_integration() {
    // Normal case with sufficient budget
    let campaign1 = Campaign::new(micros(100.0), ratio(2.0));
    assert_eq!(campaign1.next_bid(), micros(6.0)); // 12.0 / 2.0 = 6.0

    // Budget-constrained case
    let campaign2 = Campaign::new(micros(3.0), ratio(1.5));
    assert_eq!(campaign2.next_bid(), micros(3.0)); // 12.0 / 1.5 = 8.0, but budget limits to 3.0

    // High ROAS
    let campaign3 = Campaign::new(micros(100.0), ratio(6.0));
    assert_eq!(campaign3.next_bid(), micros(2.0)); // 12.0 / 6.0 = 2.0

    // Low ROAS
    let campaign4 = Campaign::new(micros(100.0), ratio(0.8));
    assert_eq!(campaign4.next_bid(), micros(15.0)); // 12.0 / 0.8 = 15.0
}

#[test]
fn test_demonstrate_bid_calculation_details() {
    println!("=== Campaign Bid Calculation Demo ===");
    println!("Formula: min(remaining_budget, expected_revenue / roas)");
    println!("Expected Revenue (mock): 12.0");

    let test_cases = vec![
        (100.0, 2.0, "Normal case"),
        (5.0, 2.0, "Budget-constrained case"),
        (100.0, 4.0, "High ROAS case"),
    ];

    for (budget, roas, description) in test_cases {
        let campaign = Campaign::new(micros(budget), ratio(roas));
        let bid = campaign.next_bid();
        let max_bid: f64 = 12.0 / roas;

        println!("{}: Budget=${:.2}, ROAS={:.2}", description, budget, roas);
        println!("  -> Max bid (12.0 / {:.2}) = {:.2}", roas, max_bid);
        println!(
            "  -> Final bid (min({:.2}, {:.2})) = {:.2}",
            budget,
            max_bid,
            bid as f64 / 1_000_000.0
        );

        assert_eq!(bid, micros(budget.min(max_bid)));
    }
}

#[test]
fn next_bid_negative_roas_is_zero() {
    let campaign = Campaign::new(micros(100.0), ratio(-2.0));
    assert_eq!(campaign.next_bid(), 0);
}

#[test]
fn next_bid_rounds_down_to_a_micro_unit() {
    // 12.0 / 7.0 = 1.714285714...
    let campaign = Campaign::new(micros(100.0), ratio(7.0));
    assert_eq!(campaign.next_bid(), 1_714_285);
}

#[test]
fn next_bid_smallest_roas_is_capped_by_budget() {
    let campaign = Campaign::new(u64::MAX, 1);
    assert_eq!(campaign.next_bid(), 12_000_000_000_000);
    let poor = Campaign::new(5, 1);
    assert_eq!(poor.next_bid(), 5);
}
