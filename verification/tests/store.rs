use grpc_demo_core::account::{CampaignAccount, CampaignSnapshot, ShopCampaign};
use grpc_demo_core::ads::{error_message, AdsServer};
use grpc_demo_core::store::{CampaignStore, StoreError};

fn micros(units: f64) -> u64 {
    (units * 1_000_000.0).round() as u64
}

fn ratio(units: f64) -> i64 {
    (units * 1_000_000.0).round() as i64
}

fn settings(id: &str, budget: f64, roas: f64, acquire_cost: f64) -> ShopCampaign {
    ShopCampaign {
        id: id.to_string(),
        budget: micros(budget),
        roas: ratio(roas),
        acquire_cost: micros(acquire_cost),
    }
}

fn server_with(id: &str, budget: f64, roas: f64, acquire_cost: f64) -> AdsServer {
    let mut store = CampaignStore::new();
    assert!(store.add(settings(id, budget, roas, acquire_cost)));
    AdsServer::new(store)
}

#[test]
fn serve_ad_commits_the_target_bid() {
    let id = "shop_campaign".to_string();
    let mut server = server_with("shop_campaign", 1000.0, 2.0, 5.0);
    let reply = server.serve_ad(&id).unwrap();
    assert_eq!(reply.bid, micros(10.0));
    assert_eq!(reply.ad_text, "Ad for campaign shop_campaign on Shop");
    let snapshot = server.state().lookup(&id).unwrap();
    assert_eq!(snapshot.spent, micros(10.0));
    assert_eq!(snapshot.budget - snapshot.spent, micros(990.0));
}

#[test]
fn serve_ad_is_capped_by_the_budget_and_then_bids_zero() {
    let id = "small".to_string();
    let mut server = server_with("small", 3.0, 2.0, 5.0);
    let first = server.serve_ad(&id).unwrap();
    assert_eq!(first.bid, micros(3.0));
    let snapshot = server.state().lookup(&id).unwrap();
    assert_eq!(snapshot.budget - snapshot.spent, 0);
    let second = server.serve_ad(&id).unwrap();
    assert_eq!(second.bid, 0);
    let after = server.state().lookup(&id).unwrap();
    assert_eq!(after.spent, micros(3.0));
}

#[test]
fn serve_ad_with_zero_roas_bids_zero() {
    let id = "guarded".to_string();
    let mut server = server_with("guarded", 100.0, 0.0, 5.0);
    let reply = server.serve_ad(&id).unwrap();
    assert_eq!(reply.bid, 0);
    assert_eq!(server.state().lookup(&id).unwrap().spent, 0);
}

#[test]
fn serve_ad_with_zero_budget_bids_zero() {
    let id = "empty".to_string();
    let mut server = server_with("empty", 0.0, 2.0, 5.0);
    let reply = server.serve_ad(&id).unwrap();
    assert_eq!(reply.bid, 0);
    assert_eq!(server.state().lookup(&id).unwrap().spent, 0);
}

#[test]
fn serve_ad_for_an_unknown_campaign_is_not_found() {
    let mut server = server_with("known", 100.0, 2.0, 5.0);
    let unknown = "unknown".to_string();
    let known = "known".to_string();
    let result = server.serve_ad(&unknown);
    assert_eq!(result.err(), Some(StoreError::NotFound));
    assert_eq!(error_message(StoreError::NotFound), "campaign not found");
    // nothing was committed
    assert_eq!(server.state().lookup(&known).unwrap().spent, 0);
}

#[test]
fn serve_ad_until_the_budget_is_spent() {
    let id = "steady".to_string();
    let mut server = server_with("steady", 25.0, 2.0, 5.0);
    let mut bids: Vec<u64> = Vec::new();
    for _ in 0..4 {
        bids.push(server.serve_ad(&id).unwrap().bid);
    }
    assert_eq!(bids, vec![micros(10.0), micros(10.0), micros(5.0), 0]);
    let snapshot = server.state().lookup(&id).unwrap();
    assert_eq!(snapshot.spent, snapshot.budget);
}

#[test]
fn lookup_returns_a_snapshot() {
    let mut store = CampaignStore::new();
    assert!(store.add(settings("a", 10.0, 1.5, 2.0)));
    let id = "a".to_string();
    let snapshot = store.lookup(&id).unwrap();
    assert_eq!(
        snapshot,
        CampaignSnapshot {
            budget: micros(10.0),
            spent: 0,
            roas: ratio(1.5),
            acquire_cost: micros(2.0),
        }
    );
    store.commit_bid(&id, micros(1.0)).unwrap();
    // the snapshot taken before does not change
    assert_eq!(snapshot.spent, 0);
    assert_eq!(store.lookup(&id).unwrap().spent, micros(1.0));
}

#[test]
fn lookup_of_an_unknown_campaign_is_not_found() {
    let store = CampaignStore::new();
    let id = "nobody".to_string();
    assert_eq!(store.lookup(&id), Err(StoreError::NotFound));
    assert!(!store.contains(&id));
}

#[test]
fn commit_bid_returns_what_remains() {
    let mut store = CampaignStore::new();
    assert!(store.add(settings("a", 10.0, 2.0, 5.0)));
    let id = "a".to_string();
    assert_eq!(store.commit_bid(&id, micros(4.0)), Ok(micros(6.0)));
    assert_eq!(store.commit_bid(&id, 0), Ok(micros(6.0)));
    assert_eq!(store.commit_bid(&id, micros(6.0)), Ok(0));
    assert_eq!(store.lookup(&id).unwrap().spent, micros(10.0));
}

#[test]
fn commit_bid_clamps_to_what_remains() {
    let mut store = CampaignStore::new();
    assert!(store.add(settings("a", 10.0, 2.0, 5.0)));
    let id = "a".to_string();
    assert_eq!(store.commit_bid(&id, micros(7.0)), Ok(micros(3.0)));
    assert_eq!(store.commit_bid(&id, micros(7.0)), Ok(0));
    assert_eq!(store.lookup(&id).unwrap().spent, micros(10.0));
    assert_eq!(store.commit_bid(&id, u64::MAX), Ok(0));
    assert_eq!(store.lookup(&id).unwrap().spent, micros(10.0));
}

#[test]
fn commit_bid_on_an_unknown_campaign_is_not_found() {
    let mut store = CampaignStore::new();
    assert!(store.add(settings("a", 10.0, 2.0, 5.0)));
    let unknown = "b".to_string();
    let known = "a".to_string();
    assert_eq!(store.commit_bid(&unknown, micros(1.0)), Err(StoreError::NotFound));
    assert_eq!(store.lookup(&known).unwrap().spent, 0);
}

#[test]
fn commit_bid_leaves_other_campaigns_alone() {
    let mut store = CampaignStore::new();
    assert!(store.add(settings("a", 10.0, 2.0, 5.0)));
    assert!(store.add(settings("b", 20.0, 1.0, 3.0)));
    assert!(store.contains(&"a".to_string()) && store.contains(&"b".to_string()));
    let a = "a".to_string();
    let b = "b".to_string();
    let before = store.lookup(&b).unwrap();
    store.commit_bid(&a, micros(4.0)).unwrap();
    assert_eq!(store.lookup(&b).unwrap(), before);
    assert_eq!(store.get_bid(&b), Ok(micros(3.0)));
    assert_eq!(store.lookup(&a).unwrap().spent, micros(4.0));
    assert_eq!(store.lookup(&b).unwrap().spent, micros(3.0));
}

#[test]
fn add_refuses_a_known_identifier() {
    let mut store = CampaignStore::new();
    assert!(store.add(settings("a", 10.0, 2.0, 5.0)));
    let id = "a".to_string();
    store.commit_bid(&id, micros(4.0)).unwrap();
    assert!(!store.add(settings("a", 99.0, 9.0, 9.0)));
    assert!(store.contains(&id));
    let snapshot = store.lookup(&id).unwrap();
    assert_eq!(snapshot.budget, micros(10.0));
    assert_eq!(snapshot.spent, micros(4.0));
}

#[test]
fn account_records_bids_within_its_budget() {
    let mut account = CampaignAccount::new(settings("a", 10.0, 2.0, 3.0));
    assert_eq!(account.id(), "a");
    assert_eq!(account.remaining_budget(), micros(10.0));
    assert_eq!(account.next_bid(), micros(6.0));
    assert_eq!(account.record_bid(micros(6.0)), micros(4.0));
    assert_eq!(account.next_bid(), micros(4.0));
    assert_eq!(account.record_bid(micros(6.0)), 0);
    assert_eq!(account.snapshot().spent, micros(10.0));
    assert_eq!(account.next_bid(), 0);
}

#[test]
fn spending_never_exceeds_the_budget_under_any_schedule() {
    // many callers, interleaved by a fixed pseudo-random schedule
    let mut store = CampaignStore::new();
    let ids: Vec<String> = vec!["a".to_string(), "b".to_string(), "c".to_string()];
    assert!(store.add(settings("a", 50.0, 2.0, 5.0)));
    assert!(store.add(settings("b", 7.5, 3.0, 1.0)));
    assert!(store.add(settings("c", 0.000_004, 1.0, 0.000_003)));
    let mut seed: u64 = 0x9e37_79b9_7f4a_7c15;
    for _ in 0..500 {
        seed = seed.wrapping_mul(6364136223846793005).wrapping_add(1442695040888963407);
        let pick: usize = ((seed >> 33) % 3) as usize;
        let amount: u64 = (seed >> 40) % 3_000_000;
        if seed & 1 == 0 {
            store.get_bid(&ids[pick]).unwrap();
        } else {
            store.commit_bid(&ids[pick], amount).unwrap();
        }
        for id in ids.iter() {
            let snapshot = store.lookup(id).unwrap();
            assert!(snapshot.spent <= snapshot.budget);
        }
    }
}

#[test]
fn commits_in_any_order_spend_the_same() {
    let amounts: Vec<u64> = vec![micros(4.0), micros(1.0), micros(7.0), micros(2.5)];
    let id = "a".to_string();
    let mut forward = CampaignStore::new();
    assert!(forward.add(settings("a", 10.0, 2.0, 5.0)));
    for amount in amounts.iter() {
        forward.commit_bid(&id, *amount).unwrap();
    }
    let mut backward = CampaignStore::new();
    assert!(backward.add(settings("a", 10.0, 2.0, 5.0)));
    for amount in amounts.iter().rev() {
        backward.commit_bid(&id, *amount).unwrap();
    }
    assert_eq!(forward.lookup(&id).unwrap().spent, micros(10.0));
    assert_eq!(backward.lookup(&id).unwrap().spent, micros(10.0));
}
