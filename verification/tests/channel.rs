use grpc_demo_core::channel::HelloProducer;
use grpc_demo_core::hello_stream::StreamPlan;
use grpc_demo_core::stream::{OfferOutcome, ProducerAction, StreamItem, StreamState};
use tokio::sync::mpsc::channel;

fn plan(sequence_length: u64, pacing_millis: u64) -> StreamPlan {
    StreamPlan { sequence_length, pacing_millis, rounds: 4, first_weight: 1 }
}

#[test]
fn producer_sends_every_item_in_order() {
    let (sender, mut receiver) = channel::<StreamItem>(4);
    let mut producer = HelloProducer::open("World".to_string(), plan(3, 200));
    let mut outcomes: Vec<OfferOutcome> = Vec::new();
    loop {
        match producer.next_action() {
            ProducerAction::Stop => break,
            ProducerAction::Pace { millis } => {
                assert_eq!(millis, 200);
                producer.pace();
            }
            ProducerAction::Produce { .. } => outcomes.push(producer.step(&sender)),
        }
    }
    assert_eq!(
        outcomes,
        vec![
            OfferOutcome::Placed { index: 0 },
            OfferOutcome::Placed { index: 1 },
            OfferOutcome::Placed { index: 2 },
        ]
    );
    assert_eq!(producer.session().state(), StreamState::Draining);
    assert_eq!(producer.session().paced_millis(), 400);
    drop(sender);
    let mut received: Vec<(u64, String)> = Vec::new();
    while let Ok(item) = receiver.try_recv() {
        received.push((item.index, item.payload));
    }
    assert_eq!(
        received,
        vec![
            (0, "Hello World (message #1, sum: 14)!".to_string()),
            (1, "Hello World (message #2, sum: 28)!".to_string()),
            (2, "Hello World (message #3, sum: 42)!".to_string()),
        ]
    );
}

#[test]
fn full_channel_holds_the_producer_back() {
    let (sender, mut receiver) = channel::<StreamItem>(2);
    let mut producer = HelloProducer::open("World".to_string(), plan(5, 0));
    assert_eq!(producer.step(&sender), OfferOutcome::Placed { index: 0 });
    assert_eq!(producer.step(&sender), OfferOutcome::PacingDue);
    producer.pace();
    assert_eq!(producer.step(&sender), OfferOutcome::Placed { index: 1 });
    producer.pace();
    assert_eq!(producer.step(&sender), OfferOutcome::BufferFull);
    assert_eq!(producer.step(&sender), OfferOutcome::BufferFull);
    assert_eq!(producer.session().next_index(), 2);
    assert_eq!(receiver.try_recv().unwrap().index, 0);
    // the item that was held back goes out now, unchanged
    assert_eq!(producer.step(&sender), OfferOutcome::Placed { index: 2 });
    assert_eq!(receiver.try_recv().unwrap().index, 1);
    let third = receiver.try_recv().unwrap();
    assert_eq!(third.index, 2);
    assert_eq!(third.payload, "Hello World (message #3, sum: 42)!");
    assert!(receiver.try_recv().is_err());
}

#[test]
fn dropped_receiver_closes_the_session() {
    let (sender, mut receiver) = channel::<StreamItem>(4);
    let mut producer = HelloProducer::open("World".to_string(), plan(5, 200));
    assert_eq!(producer.step(&sender), OfferOutcome::Placed { index: 0 });
    producer.pace();
    assert_eq!(producer.step(&sender), OfferOutcome::Placed { index: 1 });
    assert_eq!(receiver.try_recv().unwrap().index, 0);
    assert_eq!(receiver.try_recv().unwrap().index, 1);
    drop(receiver);
    assert_eq!(producer.next_action(), ProducerAction::Pace { millis: 200 });
    producer.pace();
    assert_eq!(producer.step(&sender), OfferOutcome::ConsumerGone);
    assert_eq!(producer.session().state(), StreamState::Closed);
    assert_eq!(producer.session().next_index(), 2);
    assert_eq!(producer.next_action(), ProducerAction::Stop);
    assert_eq!(producer.step(&sender), OfferOutcome::NotProducing);
}

#[test]
fn closed_receiver_closes_the_session() {
    let (sender, mut receiver) = channel::<StreamItem>(4);
    let mut producer = HelloProducer::open("World".to_string(), plan(5, 0));
    receiver.close();
    assert_eq!(producer.step(&sender), OfferOutcome::ConsumerGone);
    assert_eq!(producer.session().state(), StreamState::Closed);
    assert_eq!(producer.session().next_index(), 0);
    assert!(receiver.try_recv().is_err());
}

#[test]
fn due_item_is_generated_once_per_index() {
    let mut producer = HelloProducer::open("A".to_string(), plan(2, 0));
    let item = producer.due_item().unwrap();
    assert_eq!(item.index, 0);
    assert_eq!(item.payload, "Hello A (message #1, sum: 14)!");
    // the session has not moved: the item is due until it is placed
    assert_eq!(producer.due_item().unwrap().index, 0);
    let (sender, _receiver) = channel::<StreamItem>(1);
    assert_eq!(producer.step(&sender), OfferOutcome::Placed { index: 0 });
    assert!(producer.due_item().is_none());
    producer.pace();
    assert_eq!(producer.due_item().unwrap().index, 1);
}
