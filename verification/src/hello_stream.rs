//! Streams of greetings: what each item of a stream says, and a session that
//! generates its items as the producer's turn comes.

use vstd::prelude::*;
use vstd::string::*;
use crate::pipeline::StreamPipeline;
use crate::stream::{
    ItemModel, OfferOutcome, PipelineModel, ProducerAction, StreamItem, StreamState,
};
use crate::text::{decimal, push_decimal};
use crate::work::{checksum, checksum_value};

verus! {

/// How a stream of greetings is generated.
#[derive(Clone, Copy, Debug, PartialEq, Eq, Structural)]
pub struct StreamPlan {
    /// Number of items.
    pub sequence_length: u64,
    /// Delay between two items, in milliseconds.
    pub pacing_millis: u64,
    /// Rounds of work for each item.
    pub rounds: u64,
    /// Weight of the work for the first item; each later item weighs one
    /// more than the one before.
    pub first_weight: u64,
}

impl StreamPlan {
    /// Weight of the work for the item `index`.
    pub open spec fn weight(self, index: nat) -> nat {
        ((index + self.first_weight) % 0x1_0000_0000_0000_0000) as nat
    }

    /// Result of the work for the item `index`.
    pub open spec fn item_sum(self, index: nat) -> nat {
        checksum_value(self.rounds as nat, self.weight(index))
    }

    /// The text of the item `index` for the caller `name`.
    pub open spec fn payload(self, name: Seq<char>, index: nat) -> Seq<char> {
        stream_text(name, index, self.item_sum(index))
    }

    /// The item `index` for the caller `name`.
    pub open spec fn item(self, name: Seq<char>, index: nat) -> ItemModel {
        ItemModel { index, payload: self.payload(name, index) }
    }
}

/// The text of one item of a stream of greetings. Items are numbered from
/// one in the text.
pub open spec fn stream_text(name: Seq<char>, index: nat, sum: nat) -> Seq<char> {
    "Hello "@ + name + " (message #"@ + decimal(index + 1) + ", sum: "@ + decimal(sum % 1000)
        + ")!"@
}

/// Does the work for the item `index` of a stream and words it.
pub fn stream_message(plan: &StreamPlan, name: &str, index: u64) -> (message: String)
    requires
        index < plan.sequence_length,
    ensures
        message@ == plan.payload(name@, index as nat),
{
    let weight = index.wrapping_add(plan.first_weight);
    let sum = checksum(plan.rounds, weight);
    let mut message = String::new();
    message.append("Hello ");
    message.append(name);
    message.append(" (message #");
    push_decimal(&mut message, index + 1);
    message.append(", sum: ");
    push_decimal(&mut message, sum % 1000);
    message.append(")!");
    assert(message@ =~= stream_text(name@, index as nat, sum as nat));
    message
}

/// A stream of greetings for one caller.
#[derive(Debug)]
pub struct HelloStream {
    name: String,
    plan: StreamPlan,
    pipeline: StreamPipeline,
}

impl View for HelloStream {
    type V = PipelineModel;

    closed spec fn view(&self) -> PipelineModel {
        self.pipeline@
    }
}

impl HelloStream {
    /// The caller that the stream greets.
    pub closed spec fn spec_name(&self) -> Seq<char> {
        self.name@
    }

    /// How the stream is generated.
    pub closed spec fn spec_plan(&self) -> StreamPlan {
        self.plan
    }

    /// Whether the stream is well formed: its session is, it follows its
    /// plan, and every item in its buffer says what the plan gives.
    pub open spec fn wf(&self) -> bool {
        &&& self@.inv()
        &&& self@.session.sequence_length == self.spec_plan().sequence_length
        &&& self@.session.pacing_millis == self.spec_plan().pacing_millis
        &&& forall|j: int|
            0 <= j < self@.buffer.len() ==> #[trigger] self@.buffer[j] == self.spec_plan().item(
                self.spec_name(),
                self@.buffer[j].index,
            )
    }

    /// Opens a stream of greetings for `name`.
    pub fn open(name: String, plan: StreamPlan) -> (stream: HelloStream)
        ensures
            stream.wf(),
            stream.spec_name() == name@,
            stream.spec_plan() == plan,
            stream@ == PipelineModel::opened(
                plan.sequence_length as nat,
                plan.pacing_millis as nat,
            ),
    {
        let pipeline = StreamPipeline::open(plan.sequence_length, plan.pacing_millis);
        HelloStream { name, plan, pipeline }
    }

    pub fn plan(&self) -> (plan: StreamPlan)
        ensures
            plan == self.spec_plan(),
    {
        self.plan
    }

    pub fn state(&self) -> (state: StreamState)
        ensures
            state == self@.session.state,
    {
        self.pipeline.state()
    }

    /// Number of items that the consumer has received.
    pub fn delivered(&self) -> (n: u64)
        ensures
            n == self@.delivered,
    {
        self.pipeline.delivered()
    }

    /// The time spent in pacing delays so far, in milliseconds.
    pub fn paced_millis(&self) -> (millis: u128)
        requires
            self.wf(),
        ensures
            millis == self@.session.paced_millis(),
    {
        self.pipeline.session().paced_millis()
    }

    /// What the producer has to do next.
    pub fn next_action(&self) -> (action: ProducerAction)
        requires
            self.wf(),
        ensures
            action == self@.session.next_action(),
    {
        self.pipeline.next_action()
    }

    /// The producer's turn: where an item is due, generates it and tries to
    /// place it in the buffer. Where none is due, no work is done.
    pub fn produce(&mut self) -> (outcome: OfferOutcome)
        requires
            old(self).wf(),
        ensures
            final(self).wf(),
            final(self).spec_name() == old(self).spec_name(),
            final(self).spec_plan() == old(self).spec_plan(),
            outcome == old(self)@.offer_outcome(),
            final(self)@ == old(self)@.after_offer(
                old(self).spec_plan().payload(old(self).spec_name(), old(self)@.session.next_index),
            ),
    {
        match self.pipeline.next_action() {
            ProducerAction::Produce { index } => {
                let payload = stream_message(&self.plan, self.name.as_str(), index);
                let ghost before = self.pipeline@;
                let outcome = self.pipeline.offer(payload);
                proof {
                    if outcome is Placed {
                        let n = before.buffer.len() as int;
                        assert forall|j: int| 0 <= j < self@.buffer.len() implies #[trigger]
                            self@.buffer[j] == self.spec_plan().item(
                            self.spec_name(),
                            self@.buffer[j].index,
                        ) by {
                            if j < n {
                                assert(self@.buffer[j] == before.buffer[j]);
                            }
                        }
                    }
                }
                outcome
            },
            ProducerAction::Pace { .. } => OfferOutcome::PacingDue,
            ProducerAction::Stop => OfferOutcome::NotProducing,
        }
    }

    /// The producer has waited for the pacing delay.
    pub fn pace(&mut self)
        requires
            old(self).wf(),
        ensures
            final(self).wf(),
            final(self).spec_name() == old(self).spec_name(),
            final(self).spec_plan() == old(self).spec_plan(),
            final(self)@ == old(self)@.after_pace(),
    {
        self.pipeline.pace();
    }

    /// The consumer asks for the next item. The item that it gets is the one
    /// after those it has had, and says what the plan gives for its index.
    pub fn receive(&mut self) -> (item: Option<StreamItem>)
        requires
            old(self).wf(),
        ensures
            final(self).wf(),
            final(self).spec_name() == old(self).spec_name(),
            final(self).spec_plan() == old(self).spec_plan(),
            final(self)@ == old(self)@.after_receive(),
            match item {
                Some(item) => old(self)@.can_receive() && item@ == old(self).spec_plan().item(
                    old(self).spec_name(),
                    old(self)@.delivered,
                ),
                None => !old(self)@.can_receive(),
            },
    {
        let ghost before = self.pipeline@;
        let item = self.pipeline.receive();
        proof {
            if before.can_receive() {
                assert(before.buffer[0].index == before.delivered);
                assert forall|j: int| 0 <= j < self@.buffer.len() implies #[trigger]
                    self@.buffer[j] == self.spec_plan().item(
                    self.spec_name(),
                    self@.buffer[j].index,
                ) by {
                    assert(self@.buffer[j] == before.buffer[j + 1]);
                }
            }
        }
        item
    }

    /// The consumer goes away.
    pub fn cancel(&mut self)
        requires
            old(self).wf(),
        ensures
            final(self).wf(),
            final(self).spec_name() == old(self).spec_name(),
            final(self).spec_plan() == old(self).spec_plan(),
            final(self)@ == old(self)@.after_cancel(),
    {
        self.pipeline.cancel();
    }

    /// Runs the session to its end with a consumer that takes every item:
    /// the producer generates, paces and waits for a free slot as its turn
    /// comes, and the consumer drains the buffer. Returns the items in the
    /// order in which the consumer got them.
    ///
    /// With the consumer there, these are all the items that it had not yet
    /// had, in the order of their indices. With the consumer gone, nothing
    /// is generated and nothing is returned: the producer finds the consumer
    /// gone at its next attempt, after the pacing delay that was due, if
    /// any.
    pub fn collect(self) -> (transcript: StreamTranscript)
        requires
            self.wf(),
        ensures
            transcript.items@.len() == (if self@.consumer_open {
                self.spec_plan().sequence_length - self@.delivered
            } else {
                0
            }),
            forall|i: int|
                0 <= i < transcript.items@.len() ==> (#[trigger] transcript.items@[i])@
                    == self.spec_plan().item(self.spec_name(), (self@.delivered + i) as nat),
            self@.consumer_open && self@.session.state == StreamState::Producing
                ==> transcript.paced_millis == (self.spec_plan().sequence_length - 1)
                * self.spec_plan().pacing_millis,
            !(self@.consumer_open && self@.session.state == StreamState::Producing)
                ==> transcript.paced_millis == self@.after_pace().session.paced_millis(),
    {
        let ghost start = self@;
        let ghost name = self.spec_name();
        let ghost plan = self.spec_plan();
        let ghost producing = start.session.state == StreamState::Producing;
        let mut stream = self;
        let mut items: Vec<StreamItem> = Vec::new();
        loop
            invariant_except_break
                stream.wf(),
                stream.spec_name() == name,
                stream.spec_plan() == plan,
                start.inv(),
                producing == (start.session.state == StreamState::Producing),
                stream@.consumer_open == start.consumer_open,
                stream@.delivered >= start.delivered,
                !start.consumer_open ==> stream@.delivered == start.delivered,
                items@.len() == stream@.delivered - start.delivered,
                forall|i: int|
                    0 <= i < items@.len() ==> (#[trigger] items@[i])@ == plan.item(
                        name,
                        (start.delivered + i) as nat,
                    ),
                producing && start.consumer_open ==> stream@.session.state == StreamState::Producing
                    || stream@.session.paced + 1 == plan.sequence_length,
                producing && !start.consumer_open ==> stream@.session.next_index
                    == start.session.next_index && (stream@.session.state == StreamState::Producing
                    || stream@.session.paced == stream@.session.next_index),
                !producing ==> stream@.session == start.session,
            ensures
                stream.wf(),
                stream.spec_name() == name,
                stream.spec_plan() == plan,
                start.inv(),
                producing == (start.session.state == StreamState::Producing),
                stream@.consumer_open == start.consumer_open,
                stream@.session.state != StreamState::Producing,
                stream@.delivered >= start.delivered,
                !start.consumer_open ==> stream@.delivered == start.delivered,
                items@.len() == stream@.delivered - start.delivered,
                forall|i: int|
                    0 <= i < items@.len() ==> (#[trigger] items@[i])@ == plan.item(
                        name,
                        (start.delivered + i) as nat,
                    ),
                producing && start.consumer_open ==> stream@.session.paced + 1
                    == plan.sequence_length,
                producing && !start.consumer_open ==> stream@.session.paced
                    == start.session.next_index,
                !producing ==> stream@.session.paced == start.session.paced,
            decreases
                    3 * plan.sequence_length - stream@.session.next_index - stream@.session.paced
                        - stream@.delivered + (if stream@.session.state == StreamState::Producing {
                        1int
                    } else {
                        0int
                    }),
        {
            match stream.next_action() {
                ProducerAction::Stop => {
                    break;
                },
                ProducerAction::Pace { .. } => {
                    stream.pace();
                },
                ProducerAction::Produce { .. } => {
                    let outcome = stream.produce();
                    if let OfferOutcome::BufferFull = outcome {
                        if let Some(item) = stream.receive() {
                            items.push(item);
                        }
                    }
                },
            }
        }
        loop
            invariant_except_break
                stream.wf(),
                stream.spec_name() == name,
                stream.spec_plan() == plan,
                start.inv(),
                stream@.consumer_open == start.consumer_open,
                stream@.session.state != StreamState::Producing,
                stream@.delivered >= start.delivered,
                !start.consumer_open ==> stream@.delivered == start.delivered,
                items@.len() == stream@.delivered - start.delivered,
                forall|i: int|
                    0 <= i < items@.len() ==> (#[trigger] items@[i])@ == plan.item(
                        name,
                        (start.delivered + i) as nat,
                    ),
                producing && start.consumer_open ==> stream@.session.paced + 1
                    == plan.sequence_length,
                producing && !start.consumer_open ==> stream@.session.paced
                    == start.session.next_index,
                !producing ==> stream@.session.paced == start.session.paced,
            ensures
                stream.wf(),
                stream.spec_plan() == plan,
                start.inv(),
                stream@.consumer_open == start.consumer_open,
                stream@.session.state != StreamState::Producing,
                !stream@.can_receive(),
                stream@.delivered >= start.delivered,
                !start.consumer_open ==> stream@.delivered == start.delivered,
                items@.len() == stream@.delivered - start.delivered,
                forall|i: int|
                    0 <= i < items@.len() ==> (#[trigger] items@[i])@ == plan.item(
                        name,
                        (start.delivered + i) as nat,
                    ),
                producing && start.consumer_open ==> stream@.session.paced + 1
                    == plan.sequence_length,
                producing && !start.consumer_open ==> stream@.session.paced
                    == start.session.next_index,
                !producing ==> stream@.session.paced == start.session.paced,
            decreases stream@.buffer.len(),
        {
            match stream.receive() {
                Some(item) => {
                    items.push(item);
                },
                None => {
                    break;
                },
            }
        }
        let paced_millis = stream.paced_millis();
        proof {
            let paced = stream@.session.paced;
            let pacing = plan.pacing_millis as nat;
            assert(stream@.session.paced_millis() == paced * pacing);
            if producing && start.consumer_open {
                assert(paced == plan.sequence_length - 1);
                assert(paced * pacing == (plan.sequence_length - 1) * plan.pacing_millis)
                    by (nonlinear_arith)
                    requires
                        paced == plan.sequence_length - 1,
                        pacing == plan.pacing_millis,
                ;
            } else {
                assert(paced == start.after_pace().session.paced);
            }
        }
        StreamTranscript { items, paced_millis }
    }
}

/// What a consumer that took every item got from a stream.
#[derive(Debug)]
pub struct StreamTranscript {
    /// The items, in the order in which they came.
    pub items: Vec<StreamItem>,
    /// The time that the producer spent in pacing delays, in milliseconds.
    pub paced_millis: u128,
}

} // verus!
