//! Core logic of an ad-bidding service and of the greeting services beside
//! it: the budgets of campaigns and the bids that follow from them, and a
//! bounded, paced stream of items from a producer to a consumer.
//!
//! Money and ratios are fixed-point integers counted in micro-units
//! (`bid::MICROS_PER_UNIT` to the whole unit), so that every result is exact.
//!
//! - `bid`: the bid engine, a function of what remains of a budget, the
//!   return-on-ad-spend ratio and the acquisition cost.
//! - `account`, `store`, `ads`: one campaign's budget, the store of all
//!   campaigns, and the service that commits a bid for each ad it serves.
//! - `stream`, `pipeline`, `trace`: a streaming session as a state machine,
//!   the session with its buffer in memory, and what holds of every run.
//! - `hello_stream`, `channel`, `greeter`: streams of greetings, their
//!   producer on a channel, and the greeting services.
//! - `campaign`: a stand-alone bid estimate from an expected revenue.
//! - `text`, `work`: numbers as text, and the arithmetic of a request.
//! - `bench`, `profiling`: the figures of a load run, and the rules of the
//!   profiling endpoints.

pub mod account;
pub mod ads;
pub mod bench;
pub mod bid;
pub mod campaign;
pub mod channel;
pub mod greeter;
pub mod hello_stream;
pub mod pipeline;
pub mod profiling;
pub mod store;
pub mod stream;
pub mod text;
pub mod trace;
pub mod work;
