use grpc_demo_core::account::ShopCampaign;
use grpc_demo_core::ads::AdsServer;
use grpc_demo_core::store::CampaignStore;
use std::sync::{Arc, Mutex};

fn server() -> AdsServer {
    let mut store = CampaignStore::new();
    assert!(store.add(ShopCampaign {
        id: "shop_campaign".to_string(),
        budget: 1_000_000_000,
        roas: 2_000_000,
        acquire_cost: 5_000_000,
    }));
    assert!(store.add(ShopCampaign {
        id: "other".to_string(),
        budget: 42_000_000,
        roas: 1_500_000,
        acquire_cost: 3_000_000,
    }));
    AdsServer::new(store)
}

#[test]
fn concurrent_bids_never_spend_more_than_the_budget() {
    let shared = Arc::new(Mutex::new(server()));
    let runtime = tokio::runtime::Builder::new_multi_thread()
        .worker_threads(4)
        .build()
        .unwrap();
    let total: u64 = runtime.block_on(async {
        let mut handles = Vec::new();
        for _ in 0..16 {
            let shared = shared.clone();
            handles.push(tokio::spawn(async move {
                let id = "shop_campaign".to_string();
                let mut sum: u64 = 0;
                for _ in 0..10 {
                    let bid = shared.lock().unwrap().serve_ad(&id).unwrap().bid;
                    sum += bid;
                    tokio::task::yield_now().await;
                }
                sum
            }));
        }
        let mut total: u64 = 0;
        for handle in handles {
            total += handle.await.unwrap();
        }
        total
    });
    let guard = shared.lock().unwrap();
    let id = "shop_campaign".to_string();
    let snapshot = guard.state().lookup(&id).unwrap();
    // 160 bids of 10.0 would be 1600.0; the budget of 1000.0 caps them
    assert_eq!(snapshot.spent, 1_000_000_000);
    assert_eq!(total, snapshot.spent);
    assert!(snapshot.spent <= snapshot.budget);
    // the other campaign was not touched
    let other = "other".to_string();
    assert_eq!(guard.state().lookup(&other).unwrap().spent, 0);
}
