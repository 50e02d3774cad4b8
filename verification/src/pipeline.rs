//! A whole streaming session in memory: the producer's session, the bounded
//! buffer and the consumer's end, with the steps that each side takes.

use vstd::prelude::*;
use std::collections::VecDeque;
use crate::stream::{
    ItemModel, OfferOutcome, PipelineModel, ProducerAction, StreamItem, StreamSession,
    StreamState, STREAM_BUFFER_SLOTS,
};

verus! {

/// A streaming session with its buffer.
#[derive(Debug)]
pub struct StreamPipeline {
    session: StreamSession,
    buffer: VecDeque<StreamItem>,
    delivered: u64,
    consumer_open: bool,
}

impl View for StreamPipeline {
    type V = PipelineModel;

    closed spec fn view(&self) -> PipelineModel {
        PipelineModel {
            session: self.session@,
            buffer: self.buffer@.map_values(|item: StreamItem| item@),
            delivered: self.delivered as nat,
            consumer_open: self.consumer_open,
        }
    }
}

impl StreamPipeline {
    /// Whether the pipeline is well formed: its invariant holds, and its
    /// lengths are within the range of the machine's integers.
    pub open spec fn wf(&self) -> bool {
        &&& self@.inv()
        &&& self@.session.sequence_length <= u64::MAX
        &&& self@.session.pacing_millis <= u64::MAX
    }

    /// Opens a session of `sequence_length` items with `pacing_millis`
    /// milliseconds between two items.
    pub fn open(sequence_length: u64, pacing_millis: u64) -> (pipeline: StreamPipeline)
        ensures
            pipeline.wf(),
            pipeline@ == PipelineModel::opened(sequence_length as nat, pacing_millis as nat),
    {
        let pipeline = StreamPipeline {
            session: StreamSession::open(sequence_length, pacing_millis),
            buffer: VecDeque::new(),
            delivered: 0,
            consumer_open: true,
        };
        assert(pipeline@.buffer =~= Seq::<ItemModel>::empty());
        pipeline
    }

    /// The producer's side of the session.
    pub fn session(&self) -> (session: &StreamSession)
        ensures
            session@ == self@.session,
    {
        &self.session
    }

    pub fn state(&self) -> (state: StreamState)
        ensures
            state == self@.session.state,
    {
        self.session.state()
    }

    /// Number of items that the consumer has received.
    pub fn delivered(&self) -> (n: u64)
        ensures
            n == self@.delivered,
    {
        self.delivered
    }

    /// Number of items that wait in the buffer.
    pub fn buffered(&self) -> (n: usize)
        ensures
            n == self@.buffer.len(),
    {
        self.buffer.len()
    }

    /// Whether the consumer is still there.
    pub fn consumer_open(&self) -> (open: bool)
        ensures
            open == self@.consumer_open,
    {
        self.consumer_open
    }

    /// What the producer has to do next.
    pub fn next_action(&self) -> (action: ProducerAction)
        requires
            self.wf(),
        ensures
            action == self@.session.next_action(),
    {
        self.session.next_action()
    }

    /// The producer tries to place the item that is due, with this payload.
    pub fn offer(&mut self, payload: String) -> (outcome: OfferOutcome)
        requires
            old(self).wf(),
        ensures
            final(self).wf(),
            outcome == old(self)@.offer_outcome(),
            final(self)@ == old(self)@.after_offer(payload@),
    {
        match self.session.next_action() {
            ProducerAction::Stop => OfferOutcome::NotProducing,
            ProducerAction::Pace { .. } => OfferOutcome::PacingDue,
            ProducerAction::Produce { index } => {
                if !self.consumer_open {
                    self.session.consumer_gone();
                    OfferOutcome::ConsumerGone
                } else if self.buffer.len() >= STREAM_BUFFER_SLOTS {
                    OfferOutcome::BufferFull
                } else {
                    let ghost before = self.buffer@;
                    let item = StreamItem { index, payload };
                    self.buffer.push_back(item);
                    self.session.item_placed();
                    assert(self.buffer@.map_values(|item: StreamItem| item@) =~= before.map_values(
                        |item: StreamItem| item@,
                    ).push(item@));
                    OfferOutcome::Placed { index }
                }
            },
        }
    }

    /// The producer has waited for the pacing delay.
    pub fn pace(&mut self)
        requires
            old(self).wf(),
        ensures
            final(self).wf(),
            final(self)@ == old(self)@.after_pace(),
    {
        self.session.pacing_done();
    }

    /// The consumer asks for the next item. It gets the oldest item in the
    /// buffer, or nothing where the buffer is empty or the consumer has gone.
    pub fn receive(&mut self) -> (item: Option<StreamItem>)
        requires
            old(self).wf(),
        ensures
            final(self).wf(),
            final(self)@ == old(self)@.after_receive(),
            match item {
                Some(item) => old(self)@.can_receive() && item@ == old(self)@.buffer[0],
                None => !old(self)@.can_receive(),
            },
    {
        if !self.consumer_open {
            return None;
        }
        let ghost before = self.buffer@;
        match self.buffer.pop_front() {
            Some(item) => {
                self.delivered = self.delivered + 1;
                if self.buffer.len() == 0 {
                    self.session.drained();
                }
                assert(self.buffer@.map_values(|item: StreamItem| item@) =~= before.map_values(
                    |item: StreamItem| item@,
                ).subrange(1, before.len() as int));
                Some(item)
            },
            None => None,
        }
    }

    /// The consumer goes away. What the buffer held is dropped.
    pub fn cancel(&mut self)
        requires
            old(self).wf(),
        ensures
            final(self).wf(),
            final(self)@ == old(self)@.after_cancel(),
    {
        self.consumer_open = false;
        self.buffer.clear();
        if self.session.state() == StreamState::Draining {
            self.session.consumer_gone();
        }
        assert(self.buffer@.map_values(|item: StreamItem| item@) =~= Seq::<ItemModel>::empty());
    }
}

} // verus!
