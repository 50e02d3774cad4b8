//! Runs of a streaming session: what holds after any sequence of steps that
//! producer and consumer may take, in any interleaving.

use vstd::prelude::*;
use crate::stream::{ItemModel, OfferOutcome, PipelineModel, StreamState, STREAM_BUFFER_SLOTS};

verus! {

/// One step of a session, taken by the producer or by the consumer.
pub enum PipelineEvent {
    /// The producer tries to place an item with this payload.
    Offer { payload: Seq<char> },
    /// The producer waits for the pacing delay.
    Pace,
    /// The consumer asks for an item.
    Receive,
    /// The consumer goes away.
    Cancel,
}

impl PipelineModel {
    /// The session after one step.
    pub open spec fn step(self, event: PipelineEvent) -> PipelineModel {
        match event {
            PipelineEvent::Offer { payload } => self.after_offer(payload),
            PipelineEvent::Pace => self.after_pace(),
            PipelineEvent::Receive => self.after_receive(),
            PipelineEvent::Cancel => self.after_cancel(),
        }
    }

    /// The session after a sequence of steps.
    pub open spec fn run(self, events: Seq<PipelineEvent>) -> PipelineModel
        decreases events.len(),
    {
        if events.len() == 0 {
            self
        } else {
            self.run(events.drop_last()).step(events.last())
        }
    }

    /// The items that the consumer gets in the course of a sequence of
    /// steps, in the order in which it gets them.
    pub open spec fn received(self, events: Seq<PipelineEvent>) -> Seq<ItemModel>
        decreases events.len(),
    {
        if events.len() == 0 {
            Seq::empty()
        } else {
            let earlier = self.received(events.drop_last());
            let before = self.run(events.drop_last());
            if events.last() is Receive && before.can_receive() {
                earlier.push(before.buffer[0])
            } else {
                earlier
            }
        }
    }

    /// Whether the consumer goes away in the course of these steps.
    pub open spec fn cancelled_in(events: Seq<PipelineEvent>) -> bool {
        exists|i: int| 0 <= i < events.len() && #[trigger] events[i] is Cancel
    }
}

/// A session that has just been opened meets the invariant.
pub proof fn lemma_opened_inv(sequence_length: nat, pacing_millis: nat)
    ensures
        PipelineModel::opened(sequence_length, pacing_millis).inv(),
        PipelineModel::opened(sequence_length, pacing_millis).consumer_open,
{
}

/// Every step keeps the invariant, and never takes back what was generated,
/// delivered or waited.
pub proof fn lemma_step_inv(state: PipelineModel, event: PipelineEvent)
    requires
        state.inv(),
    ensures
        state.step(event).inv(),
        state.step(event).session.sequence_length == state.session.sequence_length,
        state.step(event).session.pacing_millis == state.session.pacing_millis,
        state.step(event).session.next_index >= state.session.next_index,
        state.step(event).delivered >= state.delivered,
        state.step(event).session.paced >= state.session.paced,
        state.step(event).consumer_open ==> state.consumer_open,
        !(event is Cancel) ==> state.step(event).consumer_open == state.consumer_open,
{
}

/// The invariant holds after any sequence of steps: the buffer is never over
/// its slots, and the items delivered and buffered are those generated.
pub proof fn lemma_run_inv(state: PipelineModel, events: Seq<PipelineEvent>)
    requires
        state.inv(),
    ensures
        state.run(events).inv(),
        state.run(events).buffer.len() <= STREAM_BUFFER_SLOTS,
        state.run(events).session.sequence_length == state.session.sequence_length,
        state.run(events).session.next_index >= state.session.next_index,
        state.run(events).delivered >= state.delivered,
        state.run(events).consumer_open ==> state.consumer_open,
        state.consumer_open && !PipelineModel::cancelled_in(events) ==> state.run(
            events,
        ).consumer_open,
    decreases events.len(),
{
    if events.len() > 0 {
        let earlier = events.drop_last();
        lemma_run_inv(state, earlier);
        lemma_step_inv(state.run(earlier), events.last());
        if state.consumer_open && !PipelineModel::cancelled_in(events) {
            assert(!(events[events.len() - 1] is Cancel));
            assert forall|i: int| 0 <= i < earlier.len() implies !(#[trigger] earlier[i] is Cancel) by {
                assert(earlier[i] == events[i]);
            }
        }
    }
}

/// Items reach the consumer in the order of their indices, none skipped and
/// none twice: the item that it gets as its `i`-th since the session was
/// opened has the index `i`.
pub proof fn lemma_received_in_order(
    sequence_length: nat,
    pacing_millis: nat,
    events: Seq<PipelineEvent>,
)
    ensures
        ({
            let opened = PipelineModel::opened(sequence_length, pacing_millis);
            &&& opened.received(events).len() == opened.run(events).delivered
            &&& opened.received(events).len() <= sequence_length
            &&& forall|i: int|
                0 <= i < opened.received(events).len() ==> (#[trigger] opened.received(
                    events,
                )[i]).index == i
        }),
    decreases events.len(),
{
    let opened = PipelineModel::opened(sequence_length, pacing_millis);
    lemma_run_inv(opened, events);
    if events.len() > 0 {
        let earlier = events.drop_last();
        lemma_received_in_order(sequence_length, pacing_millis, earlier);
        lemma_run_inv(opened, earlier);
    }
}

/// A session that is closed while its consumer is still there has delivered
/// every item: exactly `sequence_length` of them, with the indices from zero
/// upwards in order.
pub proof fn lemma_stream_complete(
    sequence_length: nat,
    pacing_millis: nat,
    events: Seq<PipelineEvent>,
)
    requires
        !PipelineModel::cancelled_in(events),
        PipelineModel::opened(sequence_length, pacing_millis).run(events).session.state
            == StreamState::Closed,
    ensures
        ({
            let opened = PipelineModel::opened(sequence_length, pacing_millis);
            &&& opened.received(events).len() == sequence_length
            &&& forall|i: int|
                0 <= i < sequence_length ==> (#[trigger] opened.received(events)[i]).index == i
        }),
{
    let opened = PipelineModel::opened(sequence_length, pacing_millis);
    lemma_run_inv(opened, events);
    lemma_received_in_order(sequence_length, pacing_millis, events);
}

/// While the consumer is there and the session is not closed, some step
/// makes progress: a pacing delay is due, or the producer can place an item,
/// or the consumer can take one.
pub proof fn lemma_progress(state: PipelineModel)
    requires
        state.inv(),
        state.consumer_open,
        state.session.state != StreamState::Closed,
    ensures
        state.session.pacing_due() || state.offer_outcome() is Placed || state.can_receive(),
{
}

/// Once the consumer has gone, no item is generated or delivered any more,
/// whatever steps follow.
pub proof fn lemma_nothing_after_cancel(state: PipelineModel, events: Seq<PipelineEvent>)
    requires
        state.inv(),
        !state.consumer_open,
    ensures
        state.run(events).session.next_index == state.session.next_index,
        state.run(events).delivered == state.delivered,
        state.received(events).len() == 0,
        !state.run(events).consumer_open,
    decreases events.len(),
{
    if events.len() > 0 {
        let earlier = events.drop_last();
        lemma_nothing_after_cancel(state, earlier);
        lemma_run_inv(state, earlier);
    }
}

/// Once the consumer has gone, the producer's next attempt to place an item
/// closes the session, after at most the one pacing delay that was due.
pub proof fn lemma_cancel_closes(state: PipelineModel, payload: Seq<char>)
    requires
        state.inv(),
        !state.consumer_open,
    ensures
        state.session.pacing_due() || state.after_offer(payload).session.state
            == StreamState::Closed,
        state.after_pace().after_offer(payload).session.state == StreamState::Closed,
        state.after_pace().after_offer(payload).session.next_index == state.session.next_index,
        state.after_pace().session.paced <= state.session.paced + 1,
{
}

/// The item with the index `i` is placed only after `i` pacing delays.
pub proof fn lemma_placed_after_pacing(state: PipelineModel, payload: Seq<char>)
    requires
        state.inv(),
        state.offer_outcome() is Placed,
    ensures
        state.offer_outcome() == (OfferOutcome::Placed { index: state.session.next_index as u64 }),
        state.session.paced == state.session.next_index,
        state.session.paced_millis() == state.session.next_index * state.session.pacing_millis,
{
}

} // verus!
