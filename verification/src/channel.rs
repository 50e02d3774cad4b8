//! The producer of a stream of greetings on a bounded channel of `tokio`:
//! the channel is the buffer, and the consumer holds its receiving end.

use vstd::prelude::*;
use tokio::sync::mpsc::error::TrySendError;
use tokio::sync::mpsc::Sender;
use crate::hello_stream::{stream_message, StreamPlan};
use crate::stream::{OfferOutcome, ProducerAction, SessionModel, StreamItem, StreamSession};

verus! {

/// The sending end of a bounded channel, `tokio::sync::mpsc::Sender`. It is
/// carried through; nothing is known of what the channel holds.
#[verifier::external_type_specification]
#[verifier::external_body]
#[verifier::reject_recursive_types(T)]
pub struct ExSender<T>(Sender<T>);

/// How an attempt to send an item on the channel ended.
#[derive(Debug)]
enum SendOutcome {
    /// The channel has taken the item.
    Sent,
    /// The channel is full; the item comes back.
    Full(StreamItem),
    /// The receiving end is closed or gone; the item comes back.
    Closed(StreamItem),
}

/// Calls `tokio::sync::mpsc::Sender::try_send`, which does not wait. Whether
/// the channel takes the item depends on the receiving end and is not
/// stated. An item that the channel does not take comes back unchanged.
#[verifier::external_body]
fn try_send(sender: &Sender<StreamItem>, item: StreamItem) -> (outcome: SendOutcome)
    ensures
        match outcome {
            SendOutcome::Sent => true,
            SendOutcome::Full(back) => back == item,
            SendOutcome::Closed(back) => back == item,
        },
{
    match sender.try_send(item) {
        Ok(()) => SendOutcome::Sent,
        Err(TrySendError::Full(back)) => SendOutcome::Full(back),
        Err(TrySendError::Closed(back)) => SendOutcome::Closed(back),
    }
}

/// The producer of one stream of greetings.
#[derive(Debug)]
pub struct HelloProducer {
    name: String,
    plan: StreamPlan,
    session: StreamSession,
    pending: Option<StreamItem>,
}

impl View for HelloProducer {
    type V = SessionModel;

    closed spec fn view(&self) -> SessionModel {
        self.session@
    }
}

impl HelloProducer {
    /// The caller that the stream greets.
    pub closed spec fn spec_name(&self) -> Seq<char> {
        self.name@
    }

    /// How the stream is generated.
    pub closed spec fn spec_plan(&self) -> StreamPlan {
        self.plan
    }

    /// Whether the producer holds an item that the channel had no room for.
    pub closed spec fn holds_item(&self) -> bool {
        self.pending is Some
    }

    /// Whether the producer is well formed: its session is, it follows its
    /// plan, and an item that it holds is the one that is due.
    pub closed spec fn wf(&self) -> bool {
        &&& self.session.wf()
        &&& self@.sequence_length == self.plan.sequence_length
        &&& self@.pacing_millis == self.plan.pacing_millis
        &&& (self.pending matches Some(item) ==> self@.ready() && item@ == self.plan.item(
            self.name@,
            self@.next_index,
        ))
    }

    /// A producer that has generated nothing yet.
    pub fn open(name: String, plan: StreamPlan) -> (producer: HelloProducer)
        ensures
            producer.wf(),
            !producer.holds_item(),
            producer.spec_name() == name@,
            producer.spec_plan() == plan,
            producer@ == SessionModel::opened(
                plan.sequence_length as nat,
                plan.pacing_millis as nat,
            ),
    {
        HelloProducer {
            name,
            plan,
            session: StreamSession::open(plan.sequence_length, plan.pacing_millis),
            pending: None,
        }
    }

    /// The producer's session.
    pub fn session(&self) -> (session: &StreamSession)
        requires
            self.wf(),
        ensures
            session@ == self@,
            session.wf(),
    {
        &self.session
    }

    /// What the producer has to do next.
    pub fn next_action(&self) -> (action: ProducerAction)
        requires
            self.wf(),
        ensures
            action == self@.next_action(),
    {
        self.session.next_action()
    }

    /// The item that is due, if one is: the one that came back from a full
    /// channel, else a new one, for which the work is done now.
    pub fn due_item(&mut self) -> (item: Option<StreamItem>)
        requires
            old(self).wf(),
        ensures
            final(self).wf(),
            !final(self).holds_item(),
            final(self)@ == old(self)@,
            final(self).spec_name() == old(self).spec_name(),
            final(self).spec_plan() == old(self).spec_plan(),
            match item {
                Some(item) => old(self)@.ready() && item@ == old(self).spec_plan().item(
                    old(self).spec_name(),
                    old(self)@.next_index,
                ),
                None => !old(self)@.ready(),
            },
    {
        match self.session.next_action() {
            ProducerAction::Produce { index } => {
                match self.pending.take() {
                    Some(item) => Some(item),
                    None => {
                        let payload = stream_message(&self.plan, self.name.as_str(), index);
                        Some(StreamItem { index, payload })
                    },
                }
            },
            _ => None,
        }
    }

    /// The producer's turn: where an item is due, tries to send it on the
    /// channel without waiting. Whether the channel takes the item is for
    /// the channel to say; the session follows what it said. An item that
    /// the channel had no room for is kept for the next turn.
    pub fn step(&mut self, sender: &Sender<StreamItem>) -> (outcome: OfferOutcome)
        requires
            old(self).wf(),
        ensures
            final(self).wf(),
            final(self).spec_name() == old(self).spec_name(),
            final(self).spec_plan() == old(self).spec_plan(),
            final(self)@ == old(self)@.after_attempt(outcome),
            final(self).holds_item() == (outcome is BufferFull),
            old(self)@.pacing_due() ==> outcome is PacingDue,
            !old(self)@.pacing_due() && !old(self)@.ready() ==> outcome is NotProducing,
            old(self)@.ready() ==> outcome == (OfferOutcome::Placed {
                index: old(self)@.next_index as u64,
            }) || outcome is BufferFull || outcome is ConsumerGone,
    {
        let action = self.session.next_action();
        match self.due_item() {
            Some(item) => {
                let index = item.index;
                let outcome = match try_send(sender, item) {
                    SendOutcome::Sent => OfferOutcome::Placed { index },
                    SendOutcome::Full(back) => {
                        self.pending = Some(back);
                        OfferOutcome::BufferFull
                    },
                    SendOutcome::Closed(_) => OfferOutcome::ConsumerGone,
                };
                self.session.attempt_done(outcome);
                outcome
            },
            None => {
                match action {
                    ProducerAction::Pace { .. } => OfferOutcome::PacingDue,
                    _ => OfferOutcome::NotProducing,
                }
            },
        }
    }

    /// The producer has waited for the pacing delay.
    pub fn pace(&mut self)
        requires
            old(self).wf(),
        ensures
            final(self).wf(),
            final(self).spec_name() == old(self).spec_name(),
            final(self).spec_plan() == old(self).spec_plan(),
            final(self).holds_item() == old(self).holds_item(),
            final(self)@ == old(self)@.after_paced(),
    {
        self.session.pacing_done();
    }
}

} // verus!
