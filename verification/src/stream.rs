//! The streaming pipeline: a finite, ordered, paced sequence of items that a
//! producer places in a bounded buffer and a consumer drains.
//!
//! `StreamSession` holds the producer's side alone: what to do next, and how
//! each outcome changes the session. `StreamPipeline` adds the bounded buffer
//! and the consumer's end, and so describes a whole session.

use vstd::prelude::*;
use std::collections::VecDeque;

verus! {

/// Number of items that the buffer between producer and consumer can hold.
pub const STREAM_BUFFER_SLOTS: usize = 4;

/// Where a streaming session stands.
#[derive(Clone, Copy, Debug, PartialEq, Eq, Structural)]
pub enum StreamState {
    /// Items are still being generated.
    Producing,
    /// Every item has been generated; the buffer is being emptied.
    Draining,
    /// Nothing is generated or delivered any more.
    Closed,
}

/// What the producer has to do next.
#[derive(Clone, Copy, Debug, PartialEq, Eq, Structural)]
pub enum ProducerAction {
    /// Generate the item with this index and try to place it in the buffer.
    Produce { index: u64 },
    /// Wait for the pacing delay, in milliseconds.
    Pace { millis: u64 },
    /// Generate nothing more.
    Stop,
}

/// The producer's side of a session, as mathematical values.
pub struct SessionModel {
    pub sequence_length: nat,
    pub pacing_millis: nat,
    pub next_index: nat,
    pub paced: nat,
    pub state: StreamState,
}

impl SessionModel {
    /// A session that has produced nothing yet. One of no items is closed
    /// from the start.
    pub open spec fn opened(sequence_length: nat, pacing_millis: nat) -> SessionModel {
        SessionModel {
            sequence_length,
            pacing_millis,
            next_index: 0,
            paced: 0,
            state: if sequence_length == 0 {
                StreamState::Closed
            } else {
                StreamState::Producing
            },
        }
    }

    /// What holds of a session at all times.
    pub open spec fn inv(self) -> bool {
        &&& self.next_index <= self.sequence_length
        &&& self.paced <= self.next_index <= self.paced + 1
        &&& (self.state == StreamState::Producing ==> self.next_index < self.sequence_length)
        &&& (self.state == StreamState::Draining ==> self.next_index == self.sequence_length
            && self.sequence_length > 0)
    }

    /// Whether a pacing delay has to pass before the next item.
    pub open spec fn pacing_due(self) -> bool {
        self.state == StreamState::Producing && self.paced < self.next_index
    }

    /// Whether the next item may be generated now.
    pub open spec fn ready(self) -> bool {
        self.state == StreamState::Producing && self.paced == self.next_index
    }

    pub open spec fn next_action(self) -> ProducerAction {
        if self.pacing_due() {
            ProducerAction::Pace { millis: self.pacing_millis as u64 }
        } else if self.ready() {
            ProducerAction::Produce { index: self.next_index as u64 }
        } else {
            ProducerAction::Stop
        }
    }

    /// The session after the item that was due has been placed in the buffer.
    pub open spec fn after_placed(self) -> SessionModel {
        if self.ready() {
            SessionModel {
                next_index: self.next_index + 1,
                state: if self.next_index + 1 == self.sequence_length {
                    StreamState::Draining
                } else {
                    StreamState::Producing
                },
                ..self
            }
        } else {
            self
        }
    }

    /// The session after a pacing delay has passed.
    pub open spec fn after_paced(self) -> SessionModel {
        if self.pacing_due() {
            SessionModel { paced: self.paced + 1, ..self }
        } else {
            self
        }
    }

    /// The session after the producer has found the consumer gone.
    pub open spec fn after_consumer_gone(self) -> SessionModel {
        SessionModel { state: StreamState::Closed, ..self }
    }

    /// The session after the buffer has been emptied.
    pub open spec fn after_drained(self) -> SessionModel {
        if self.state == StreamState::Draining {
            SessionModel { state: StreamState::Closed, ..self }
        } else {
            self
        }
    }

    /// The session after an attempt to place an item that ended in
    /// `outcome`.
    pub open spec fn after_attempt(self, outcome: OfferOutcome) -> SessionModel {
        match outcome {
            OfferOutcome::Placed { .. } => self.after_placed(),
            OfferOutcome::ConsumerGone => self.after_consumer_gone(),
            _ => self,
        }
    }

    /// The least time, in milliseconds, that has passed in pacing delays.
    pub open spec fn paced_millis(self) -> nat {
        self.paced * self.pacing_millis
    }
}

/// The producer's side of a streaming session.
#[derive(Debug)]
pub struct StreamSession {
    sequence_length: u64,
    pacing_millis: u64,
    next_index: u64,
    paced: u64,
    state: StreamState,
}

impl View for StreamSession {
    type V = SessionModel;

    closed spec fn view(&self) -> SessionModel {
        SessionModel {
            sequence_length: self.sequence_length as nat,
            pacing_millis: self.pacing_millis as nat,
            next_index: self.next_index as nat,
            paced: self.paced as nat,
            state: self.state,
        }
    }
}

impl StreamSession {
    /// Whether the session is well formed: its model is within the range of
    /// the machine's integers and its invariant holds.
    pub open spec fn wf(&self) -> bool {
        &&& self@.inv()
        &&& self@.sequence_length <= u64::MAX
        &&& self@.pacing_millis <= u64::MAX
    }

    /// Starts a session of `sequence_length` items with `pacing_millis`
    /// milliseconds between two items.
    pub fn open(sequence_length: u64, pacing_millis: u64) -> (session: StreamSession)
        ensures
            session.wf(),
            session@ == SessionModel::opened(sequence_length as nat, pacing_millis as nat),
    {
        StreamSession {
            sequence_length,
            pacing_millis,
            next_index: 0,
            paced: 0,
            state: if sequence_length == 0 {
                StreamState::Closed
            } else {
                StreamState::Producing
            },
        }
    }

    pub fn sequence_length(&self) -> (n: u64)
        ensures
            n == self@.sequence_length,
    {
        self.sequence_length
    }

    pub fn pacing_millis(&self) -> (n: u64)
        ensures
            n == self@.pacing_millis,
    {
        self.pacing_millis
    }

    /// Index of the next item to generate: the number of items placed so far.
    pub fn next_index(&self) -> (n: u64)
        ensures
            n == self@.next_index,
    {
        self.next_index
    }

    /// Number of pacing delays that have passed.
    pub fn paced(&self) -> (n: u64)
        ensures
            n == self@.paced,
    {
        self.paced
    }

    pub fn state(&self) -> (state: StreamState)
        ensures
            state == self@.state,
    {
        self.state
    }

    /// What the producer has to do next.
    pub fn next_action(&self) -> (action: ProducerAction)
        requires
            self.wf(),
        ensures
            action == self@.next_action(),
    {
        match self.state {
            StreamState::Producing => {
                if self.paced < self.next_index {
                    ProducerAction::Pace { millis: self.pacing_millis }
                } else {
                    ProducerAction::Produce { index: self.next_index }
                }
            },
            _ => ProducerAction::Stop,
        }
    }

    /// Records that the item that was due has been placed in the buffer.
    /// Where none was due, nothing changes.
    pub fn item_placed(&mut self)
        requires
            old(self).wf(),
        ensures
            final(self).wf(),
            final(self)@ == old(self)@.after_placed(),
    {
        if self.state == StreamState::Producing && self.paced == self.next_index {
            self.next_index = self.next_index + 1;
            if self.next_index == self.sequence_length {
                self.state = StreamState::Draining;
            }
        }
    }

    /// Records that a pacing delay has passed. Where none was due, nothing
    /// changes.
    pub fn pacing_done(&mut self)
        requires
            old(self).wf(),
        ensures
            final(self).wf(),
            final(self)@ == old(self)@.after_paced(),
    {
        if self.state == StreamState::Producing && self.paced < self.next_index {
            self.paced = self.paced + 1;
        }
    }

    /// Records that the consumer is gone: the session is closed at once.
    pub fn consumer_gone(&mut self)
        requires
            old(self).wf(),
        ensures
            final(self).wf(),
            final(self)@ == old(self)@.after_consumer_gone(),
    {
        self.state = StreamState::Closed;
    }

    /// Records that the buffer is empty: a draining session is closed.
    pub fn drained(&mut self)
        requires
            old(self).wf(),
        ensures
            final(self).wf(),
            final(self)@ == old(self)@.after_drained(),
    {
        if self.state == StreamState::Draining {
            self.state = StreamState::Closed;
        }
    }

    /// Records how an attempt to place the item that was due has ended.
    pub fn attempt_done(&mut self, outcome: OfferOutcome)
        requires
            old(self).wf(),
        ensures
            final(self).wf(),
            final(self)@ == old(self)@.after_attempt(outcome),
    {
        match outcome {
            OfferOutcome::Placed { .. } => self.item_placed(),
            OfferOutcome::ConsumerGone => self.consumer_gone(),
            _ => {},
        }
    }

    /// The time spent in pacing delays so far, in milliseconds.
    pub fn paced_millis(&self) -> (millis: u128)
        requires
            self.wf(),
        ensures
            millis == self@.paced_millis(),
    {
        proof {
            assert(self.paced * self.pacing_millis <= 0xffff_ffff_ffff_ffff
                * 0xffff_ffff_ffff_ffff) by (nonlinear_arith)
                requires
                    0 <= self.paced <= 0xffff_ffff_ffff_ffff,
                    0 <= self.pacing_millis <= 0xffff_ffff_ffff_ffff,
            ;
        }
        (self.paced as u128) * (self.pacing_millis as u128)
    }
}

/// One item of a stream.
#[derive(Debug)]
pub struct StreamItem {
    pub index: u64,
    pub payload: String,
}

/// An item as mathematical values.
pub struct ItemModel {
    pub index: nat,
    pub payload: Seq<char>,
}

impl View for StreamItem {
    type V = ItemModel;

    open spec fn view(&self) -> ItemModel {
        ItemModel { index: self.index as nat, payload: self.payload@ }
    }
}

/// How an attempt to place an item in the buffer ended.
#[derive(Clone, Copy, Debug, PartialEq, Eq, Structural)]
pub enum OfferOutcome {
    /// The item is in the buffer, under this index.
    Placed { index: u64 },
    /// The buffer is full: the producer has to wait for a free slot.
    BufferFull,
    /// A pacing delay has to pass first.
    PacingDue,
    /// The consumer is gone: the session is closed and the item dropped.
    ConsumerGone,
    /// The session generates no more items; the item is dropped.
    NotProducing,
}

/// A whole session as mathematical values: the producer's side, the buffer
/// and the consumer's end.
pub struct PipelineModel {
    pub session: SessionModel,
    pub buffer: Seq<ItemModel>,
    pub delivered: nat,
    pub consumer_open: bool,
}

impl PipelineModel {
    /// A session in which nothing has happened yet.
    pub open spec fn opened(sequence_length: nat, pacing_millis: nat) -> PipelineModel {
        PipelineModel {
            session: SessionModel::opened(sequence_length, pacing_millis),
            buffer: Seq::empty(),
            delivered: 0,
            consumer_open: true,
        }
    }

    /// What holds of a session at all times. The buffer never holds more
    /// than its slots; the items delivered and those in the buffer are, in
    /// this order, the items generated so far, each once.
    pub open spec fn inv(self) -> bool {
        &&& self.session.inv()
        &&& self.buffer.len() <= STREAM_BUFFER_SLOTS
        &&& self.delivered + self.buffer.len() <= self.session.next_index
        &&& (self.consumer_open ==> self.delivered + self.buffer.len() == self.session.next_index)
        &&& (forall|j: int|
            0 <= j < self.buffer.len() ==> (#[trigger] self.buffer[j]).index == self.delivered + j)
        &&& (self.session.state == StreamState::Draining ==> self.buffer.len() > 0
            && self.consumer_open)
        &&& (self.session.state == StreamState::Closed ==> self.buffer.len() == 0)
        &&& (self.session.state == StreamState::Closed && self.consumer_open
            ==> self.session.next_index == self.session.sequence_length)
        &&& (!self.consumer_open ==> self.buffer.len() == 0)
    }

    /// How an attempt to place an item ends.
    pub open spec fn offer_outcome(self) -> OfferOutcome {
        if self.session.state != StreamState::Producing {
            OfferOutcome::NotProducing
        } else if self.session.pacing_due() {
            OfferOutcome::PacingDue
        } else if !self.consumer_open {
            OfferOutcome::ConsumerGone
        } else if self.buffer.len() >= STREAM_BUFFER_SLOTS {
            OfferOutcome::BufferFull
        } else {
            OfferOutcome::Placed { index: self.session.next_index as u64 }
        }
    }

    /// The session after an attempt to place an item with this payload.
    pub open spec fn after_offer(self, payload: Seq<char>) -> PipelineModel {
        match self.offer_outcome() {
            OfferOutcome::Placed { .. } => PipelineModel {
                session: self.session.after_placed(),
                buffer: self.buffer.push(
                    ItemModel { index: self.session.next_index, payload },
                ),
                ..self
            },
            OfferOutcome::ConsumerGone => PipelineModel {
                session: self.session.after_consumer_gone(),
                ..self
            },
            _ => self,
        }
    }

    /// The session after a pacing delay.
    pub open spec fn after_pace(self) -> PipelineModel {
        PipelineModel { session: self.session.after_paced(), ..self }
    }

    /// Whether the consumer gets an item when it asks for one.
    pub open spec fn can_receive(self) -> bool {
        self.consumer_open && self.buffer.len() > 0
    }

    /// The session after the consumer has asked for an item.
    pub open spec fn after_receive(self) -> PipelineModel {
        if self.can_receive() {
            let rest = self.buffer.subrange(1, self.buffer.len() as int);
            PipelineModel {
                session: if rest.len() == 0 {
                    self.session.after_drained()
                } else {
                    self.session
                },
                buffer: rest,
                delivered: self.delivered + 1,
                ..self
            }
        } else {
            self
        }
    }

    /// The session after the consumer has gone away: what the buffer held is
    /// dropped. A session that was draining is closed; one that was
    /// producing is closed when the producer next tries to place an item.
    pub open spec fn after_cancel(self) -> PipelineModel {
        PipelineModel {
            session: if self.session.state == StreamState::Draining {
                self.session.after_consumer_gone()
            } else {
                self.session
            },
            buffer: Seq::empty(),
            consumer_open: false,
            ..self
        }
    }
}

} // verus!
