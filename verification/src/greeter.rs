//! The greeting services: each counts its requests, does the work of a
//! request and words the reply.

use vstd::prelude::*;
use vstd::string::*;
use crate::campaign::Campaign;
use crate::channel::HelloProducer;
use crate::hello_stream::{HelloStream, StreamPlan};
use crate::stream::{PipelineModel, SessionModel};
use crate::text::{amount_text, decimal, push_amount, push_decimal};
use crate::work::{checksum, checksum_value};

verus! {

/// Rounds of work for a request to the baseline and the main service.
pub const HELLO_ROUNDS: u64 = 50_000;

/// Rounds of work for a request to the profiling service.
pub const PROFILING_ROUNDS: u64 = 10_000;

/// Every so many requests one is logged.
pub const LOG_EVERY: u64 = 100;

/// Budget of the campaign that the main service quotes a bid for, in
/// micro-units.
pub const QUOTED_BUDGET: u64 = 50_000_000;

/// Ratio of the campaign that the main service quotes a bid for, in
/// micro-units.
pub const QUOTED_ROAS: i64 = 2_500_000;

/// The reply to one greeting request.
#[derive(Debug)]
pub struct HelloReply {
    /// The text for the caller.
    pub message: String,
    /// The number that the service gave the request.
    pub request: u64,
    /// Whether the request is one of those that are logged.
    pub log_due: bool,
}

/// A counter after one more count, wrapping around at 64 bits.
pub open spec fn counted(count: nat) -> nat {
    (count + 1) % 0x1_0000_0000_0000_0000
}

/// The text of a plain greeting.
pub open spec fn hello_text(name: Seq<char>, sum: nat) -> Seq<char> {
    "Hello "@ + name + " (sum: "@ + decimal(sum % 1000) + ")!"@
}

/// The text of a greeting from the baseline service.
pub open spec fn baseline_text(name: Seq<char>, request: nat, sum: nat) -> Seq<char> {
    "Hello "@ + name + " (baseline server, request #"@ + decimal(request) + ", sum: "@ + decimal(
        sum % 1000,
    ) + ")!"@
}

/// The text of a greeting from the main service, which quotes a bid.
pub open spec fn optimized_text(name: Seq<char>, request: nat, sum: nat, bid: nat) -> Seq<char> {
    "Hello "@ + name + " (optimized server, request #"@ + decimal(request) + ", sum: "@ + decimal(
        sum % 1000,
    ) + ", next_bid: "@ + amount_text(bid) + ")!"@
}

/// Words a plain greeting.
pub fn hello_message(name: &str, sum: u64) -> (message: String)
    ensures
        message@ == hello_text(name@, sum as nat),
{
    let mut message = String::new();
    message.append("Hello ");
    message.append(name);
    message.append(" (sum: ");
    push_decimal(&mut message, sum % 1000);
    message.append(")!");
    assert(message@ =~= hello_text(name@, sum as nat));
    message
}

/// The service without any tuning.
#[derive(Debug)]
pub struct BaselineGreeter {
    request_count: u64,
}

impl BaselineGreeter {
    /// Number of requests served so far.
    pub closed spec fn requests(&self) -> nat {
        self.request_count as nat
    }

    pub fn new() -> (greeter: BaselineGreeter)
        ensures
            greeter.requests() == 0,
    {
        BaselineGreeter { request_count: 0 }
    }

    pub fn request_count(&self) -> (count: u64)
        ensures
            count == self.requests(),
    {
        self.request_count
    }

    /// Serves one request: counts it, does its work and words the reply.
    pub fn say_hello(&mut self, name: &str) -> (reply: HelloReply)
        ensures
            final(self).requests() == counted(old(self).requests()),
            reply.request == final(self).requests(),
            reply.log_due == (reply.request % LOG_EVERY == 0),
            reply.message@ == baseline_text(
                name@,
                reply.request as nat,
                checksum_value(HELLO_ROUNDS as nat, 1),
            ),
    {
        let count = self.request_count.wrapping_add(1);
        self.request_count = count;
        let sum = checksum(HELLO_ROUNDS, 1);
        let mut message = String::new();
        message.append("Hello ");
        message.append(name);
        message.append(" (baseline server, request #");
        push_decimal(&mut message, count);
        message.append(", sum: ");
        push_decimal(&mut message, sum % 1000);
        message.append(")!");
        assert(message@ =~= baseline_text(name@, count as nat, sum as nat));
        HelloReply { message, request: count, log_due: count % LOG_EVERY == 0 }
    }
}

impl Default for BaselineGreeter {
    fn default() -> (greeter: BaselineGreeter)
        ensures
            greeter.requests() == 0,
    {
        BaselineGreeter::new()
    }
}

/// The main service, which also quotes the next bid of a fixed campaign.
#[derive(Debug)]
pub struct MyGreeter {
    request_count: u64,
}

impl MyGreeter {
    /// Number of requests served so far.
    pub closed spec fn requests(&self) -> nat {
        self.request_count as nat
    }

    /// The bid that every reply quotes.
    pub open spec fn quoted_bid() -> nat {
        (Campaign { remaining_budget: QUOTED_BUDGET, roas: QUOTED_ROAS }).spec_next_bid() as nat
    }

    pub fn new() -> (greeter: MyGreeter)
        ensures
            greeter.requests() == 0,
    {
        MyGreeter { request_count: 0 }
    }

    pub fn request_count(&self) -> (count: u64)
        ensures
            count == self.requests(),
    {
        self.request_count
    }

    /// Serves one request: counts it, does its work, computes the bid to
    /// quote and words the reply.
    pub fn say_hello(&mut self, name: &str) -> (reply: HelloReply)
        ensures
            final(self).requests() == counted(old(self).requests()),
            reply.request == final(self).requests(),
            reply.log_due == (reply.request % LOG_EVERY == 0),
            reply.message@ == optimized_text(
                name@,
                reply.request as nat,
                checksum_value(HELLO_ROUNDS as nat, 1),
                Self::quoted_bid(),
            ),
    {
        let count = self.request_count.wrapping_add(1);
        self.request_count = count;
        let sum = checksum(HELLO_ROUNDS, 1);
        let campaign = Campaign::new(QUOTED_BUDGET, QUOTED_ROAS);
        let bid = campaign.next_bid();
        let mut message = String::new();
        message.append("Hello ");
        message.append(name);
        message.append(" (optimized server, request #");
        push_decimal(&mut message, count);
        message.append(", sum: ");
        push_decimal(&mut message, sum % 1000);
        message.append(", next_bid: ");
        push_amount(&mut message, bid);
        message.append(")!");
        assert(message@ =~= optimized_text(name@, count as nat, sum as nat, bid as nat));
        HelloReply { message, request: count, log_due: count % LOG_EVERY == 0 }
    }
}

impl Default for MyGreeter {
    fn default() -> (greeter: MyGreeter)
        ensures
            greeter.requests() == 0,
    {
        MyGreeter::new()
    }
}

/// The service with profiling endpoints beside it. It also streams.
#[derive(Debug)]
pub struct PprofGreeter {
    request_count: u64,
    stream_count: u64,
}

impl PprofGreeter {
    /// Number of requests served so far.
    pub closed spec fn requests(&self) -> nat {
        self.request_count as nat
    }

    /// Number of streams opened so far.
    pub closed spec fn streams(&self) -> nat {
        self.stream_count as nat
    }

    /// How this service generates a stream.
    pub open spec fn spec_stream_plan() -> StreamPlan {
        StreamPlan { sequence_length: 5, pacing_millis: 100, rounds: 25_000, first_weight: 1 }
    }

    pub fn new() -> (greeter: PprofGreeter)
        ensures
            greeter.requests() == 0,
            greeter.streams() == 0,
    {
        PprofGreeter { request_count: 0, stream_count: 0 }
    }

    pub fn request_count(&self) -> (count: u64)
        ensures
            count == self.requests(),
    {
        self.request_count
    }

    pub fn stream_count(&self) -> (count: u64)
        ensures
            count == self.streams(),
    {
        self.stream_count
    }

    /// Serves one request: counts it, does its work and words the reply.
    pub fn say_hello(&mut self, name: &str) -> (reply: HelloReply)
        ensures
            final(self).requests() == counted(old(self).requests()),
            final(self).streams() == old(self).streams(),
            reply.request == final(self).requests(),
            reply.log_due == (reply.request % LOG_EVERY == 0),
            reply.message@ == hello_text(name@, checksum_value(HELLO_ROUNDS as nat, 1)),
    {
        let count = self.request_count.wrapping_add(1);
        self.request_count = count;
        let sum = checksum(HELLO_ROUNDS, 1);
        let message = hello_message(name, sum);
        HelloReply { message, request: count, log_due: count % LOG_EVERY == 0 }
    }

    /// How this service generates a stream.
    pub fn stream_plan() -> (plan: StreamPlan)
        ensures
            plan == Self::spec_stream_plan(),
    {
        StreamPlan { sequence_length: 5, pacing_millis: 100, rounds: 25_000, first_weight: 1 }
    }

    /// Opens a stream of greetings for `name` and counts it.
    pub fn say_hello_stream(&mut self, name: String) -> (stream: HelloStream)
        ensures
            final(self).streams() == counted(old(self).streams()),
            final(self).requests() == old(self).requests(),
            stream.wf(),
            stream.spec_name() == name@,
            stream.spec_plan() == Self::spec_stream_plan(),
            stream@ == PipelineModel::opened(5, 100),
    {
        self.stream_count = self.stream_count.wrapping_add(1);
        HelloStream::open(name, Self::stream_plan())
    }

    /// Counts a stream of greetings for `name` and gives its producer, for
    /// a consumer at the far end of a channel.
    pub fn stream_producer(&mut self, name: String) -> (producer: HelloProducer)
        ensures
            final(self).streams() == counted(old(self).streams()),
            final(self).requests() == old(self).requests(),
            producer.wf(),
            !producer.holds_item(),
            producer.spec_name() == name@,
            producer.spec_plan() == Self::spec_stream_plan(),
            producer@ == SessionModel::opened(5, 100),
    {
        self.stream_count = self.stream_count.wrapping_add(1);
        HelloProducer::open(name, Self::stream_plan())
    }
}

impl Default for PprofGreeter {
    fn default() -> (greeter: PprofGreeter)
        ensures
            greeter.requests() == 0,
            greeter.streams() == 0,
    {
        PprofGreeter::new()
    }
}

/// The service that measures itself: it adds up the time that its requests
/// take.
#[derive(Debug)]
pub struct ProfilingGreeter {
    request_count: u64,
    total_cpu_time: u64,
}

impl ProfilingGreeter {
    /// Number of requests served so far.
    pub closed spec fn requests(&self) -> nat {
        self.request_count as nat
    }

    /// The time that the requests have taken so far, in nanoseconds.
    pub closed spec fn cpu_nanos(&self) -> nat {
        self.total_cpu_time as nat
    }

    /// How this service generates a stream.
    pub open spec fn spec_stream_plan() -> StreamPlan {
        StreamPlan { sequence_length: 5, pacing_millis: 200, rounds: 5_000, first_weight: 0 }
    }

    /// The mean time of a request in microseconds, rounded down; zero before
    /// the first request.
    pub open spec fn spec_average_micros(&self) -> nat {
        if self.requests() > 0 {
            self.cpu_nanos() / self.requests() / 1000
        } else {
            0
        }
    }

    pub fn new() -> (greeter: ProfilingGreeter)
        ensures
            greeter.requests() == 0,
            greeter.cpu_nanos() == 0,
    {
        ProfilingGreeter { request_count: 0, total_cpu_time: 0 }
    }

    pub fn request_count(&self) -> (count: u64)
        ensures
            count == self.requests(),
    {
        self.request_count
    }

    pub fn total_cpu_time(&self) -> (nanos: u64)
        ensures
            nanos == self.cpu_nanos(),
    {
        self.total_cpu_time
    }

    /// Serves one request: counts it, does its work and words the reply. The
    /// reply carries the number of requests served before this one; every
    /// request is logged.
    pub fn say_hello(&mut self, name: &str) -> (reply: HelloReply)
        ensures
            final(self).requests() == counted(old(self).requests()),
            final(self).cpu_nanos() == old(self).cpu_nanos(),
            reply.request == old(self).requests(),
            reply.log_due,
            reply.message@ == hello_text(name@, checksum_value(PROFILING_ROUNDS as nat, 1)),
    {
        let count = self.request_count;
        self.request_count = count.wrapping_add(1);
        let sum = checksum(PROFILING_ROUNDS, 1);
        let message = hello_message(name, sum);
        HelloReply { message, request: count, log_due: true }
    }

    /// Adds the time that a request took, in nanoseconds, to the total,
    /// which wraps around at 64 bits.
    pub fn record_cpu_time(&mut self, nanos: u64)
        ensures
            final(self).requests() == old(self).requests(),
            final(self).cpu_nanos() == (old(self).cpu_nanos() + nanos) % 0x1_0000_0000_0000_0000,
    {
        self.total_cpu_time = self.total_cpu_time.wrapping_add(nanos);
    }

    /// The mean time of a request in microseconds.
    pub fn average_micros(&self) -> (micros: u64)
        ensures
            micros == self.spec_average_micros(),
    {
        if self.request_count > 0 {
            self.total_cpu_time / self.request_count / 1000
        } else {
            0
        }
    }

    /// How this service generates a stream.
    pub fn stream_plan() -> (plan: StreamPlan)
        ensures
            plan == Self::spec_stream_plan(),
    {
        StreamPlan { sequence_length: 5, pacing_millis: 200, rounds: 5_000, first_weight: 0 }
    }

    /// Opens a stream of greetings for `name`.
    pub fn say_hello_stream(&self, name: String) -> (stream: HelloStream)
        ensures
            stream.wf(),
            stream.spec_name() == name@,
            stream.spec_plan() == Self::spec_stream_plan(),
            stream@ == PipelineModel::opened(5, 200),
    {
        HelloStream::open(name, Self::stream_plan())
    }

    /// The producer of a stream of greetings for `name`, for a consumer at
    /// the far end of a channel.
    pub fn stream_producer(&self, name: String) -> (producer: HelloProducer)
        ensures
            producer.wf(),
            !producer.holds_item(),
            producer.spec_name() == name@,
            producer.spec_plan() == Self::spec_stream_plan(),
            producer@ == SessionModel::opened(5, 200),
    {
        HelloProducer::open(name, Self::stream_plan())
    }
}

impl Default for ProfilingGreeter {
    fn default() -> (greeter: ProfilingGreeter)
        ensures
            greeter.requests() == 0,
            greeter.cpu_nanos() == 0,
    {
        ProfilingGreeter::new()
    }
}

/// A size in bytes as whole mebibytes, rounded down.
pub fn memory_mb(bytes: u64) -> (mb: u64)
    ensures
        mb == bytes / 1024 / 1024,
{
    bytes / 1024 / 1024
}

} // verus!
