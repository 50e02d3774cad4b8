//! The rules of the profiling endpoints: for how long to profile, and what
//! to answer for each way in which profiling can end.

use vstd::prelude::*;
use vstd::string::*;

verus! {

/// What the heap endpoint says where it can work.
pub const HEAP_ADVICE: &'static str =
    "Heap profiling in Rust requires external tools like valgrind or heaptrack.\nFor memory analysis, use: valgrind --tool=massif ./target/release/grpc-demo-server-pprof";

/// Seconds of profiling where the request names none that can be read.
pub const DEFAULT_PROFILE_SECONDS: u64 = 30;

/// Whether a character is a decimal digit.
pub open spec fn is_digit(c: char) -> bool {
    '0' <= c <= '9'
}

/// The number that a sequence of decimal digits stands for.
pub open spec fn digits_value(digits: Seq<char>) -> nat
    decreases digits.len(),
{
    if digits.len() == 0 {
        0
    } else {
        digits_value(digits.drop_last()) * 10 + (digits.last() as nat - '0' as nat) as nat
    }
}

/// A text without the plus sign that may stand in front of a number.
pub open spec fn unsigned_part(text: Seq<char>) -> Seq<char> {
    if text.len() > 0 && text[0] == '+' {
        text.skip(1)
    } else {
        text
    }
}

/// The number that a text stands for: an optional plus sign, then decimal
/// digits alone, at least one, of a value within 64 bits. Any other text
/// stands for none.
pub open spec fn parsed_u64(text: Seq<char>) -> Option<u64> {
    let digits = unsigned_part(text);
    if digits.len() > 0 && (forall|i: int| 0 <= i < digits.len() ==> is_digit(#[trigger] digits[i]))
        && digits_value(digits) <= u64::MAX {
        Some(digits_value(digits) as u64)
    } else {
        None
    }
}

/// Calls `str::parse::<u64>`, which reads an optional plus sign followed by
/// decimal digits and fails on anything else, on no digits and on a value
/// beyond 64 bits.
#[verifier::external_body]
fn parse_u64(text: &str) -> (parsed: Option<u64>)
    ensures
        parsed == parsed_u64(text@),
{
    text.parse::<u64>().ok()
}

/// For how many seconds to profile: the number that the request's
/// `seconds` parameter stands for, or the default where the request has no
/// such parameter or it stands for no number.
pub open spec fn spec_profile_seconds(param: Option<Seq<char>>) -> u64 {
    match param {
        Some(text) => match parsed_u64(text) {
            Some(seconds) => seconds,
            None => DEFAULT_PROFILE_SECONDS,
        },
        None => DEFAULT_PROFILE_SECONDS,
    }
}

/// For how many seconds to profile, from the request's `seconds` parameter.
pub fn profile_seconds(param: Option<&str>) -> (seconds: u64)
    ensures
        seconds == spec_profile_seconds(
            match param {
                Some(text) => Some(text@),
                None => None,
            },
        ),
{
    match param {
        Some(text) => match parse_u64(text) {
            Some(seconds) => seconds,
            None => DEFAULT_PROFILE_SECONDS,
        },
        None => DEFAULT_PROFILE_SECONDS,
    }
}

/// The step at which profiling failed, with what the profiler said of it.
#[derive(Debug)]
pub enum ProfilingFailure {
    /// The profiler could not be started.
    Profiler(String),
    /// The report could not be built.
    Build(String),
    /// The profile could not be generated from the report.
    Pprof(String),
    /// The profile could not be encoded.
    Encode,
    /// The flamegraph could not be drawn.
    Flamegraph(String),
}

/// What an answer carries.
#[derive(Debug)]
pub enum ReplyBody {
    Bytes(Vec<u8>),
    Text(String),
}

/// An answer of a profiling endpoint.
#[derive(Debug)]
pub struct HttpReply {
    pub status: u16,
    pub content_type: &'static str,
    /// The value of the header that names the file, where the answer has
    /// that header.
    pub content_disposition: Option<&'static str>,
    pub body: ReplyBody,
}

/// What a caller is told of a failure.
pub open spec fn failure_text(failure: ProfilingFailure) -> Seq<char> {
    match failure {
        ProfilingFailure::Profiler(reason) => "Failed to create profiler: "@ + reason@,
        ProfilingFailure::Build(reason) => "Error: "@ + reason@,
        ProfilingFailure::Pprof(reason) => "Failed to generate pprof: "@ + reason@,
        ProfilingFailure::Encode => "Failed to encode profile"@,
        ProfilingFailure::Flamegraph(reason) => "Error generating flamegraph: "@ + reason@,
    }
}

/// Words a failure for the caller.
pub fn failure_message(failure: &ProfilingFailure) -> (message: String)
    ensures
        message@ == failure_text(*failure),
{
    let mut message = String::new();
    match failure {
        ProfilingFailure::Profiler(reason) => {
            message.append("Failed to create profiler: ");
            message.append(reason.as_str());
        },
        ProfilingFailure::Build(reason) => {
            message.append("Error: ");
            message.append(reason.as_str());
        },
        ProfilingFailure::Pprof(reason) => {
            message.append("Failed to generate pprof: ");
            message.append(reason.as_str());
        },
        ProfilingFailure::Encode => {
            message.append("Failed to encode profile");
        },
        ProfilingFailure::Flamegraph(reason) => {
            message.append("Error generating flamegraph: ");
            message.append(reason.as_str());
        },
    }
    assert(message@ =~= failure_text(*failure));
    message
}

/// The answer to a failed request: an internal error, in plain text.
pub fn failure_reply(failure: &ProfilingFailure) -> (reply: HttpReply)
    ensures
        reply.status == 500,
        reply.content_type@ == "text/plain"@,
        reply.content_disposition matches Some(value) && value@ == ""@,
        reply.body matches ReplyBody::Text(text) && text@ == failure_text(*failure),
{
    HttpReply {
        status: 500,
        content_type: "text/plain",
        content_disposition: Some(""),
        body: ReplyBody::Text(failure_message(failure)),
    }
}

/// The answer of the CPU profile endpoint: the encoded profile as a file to
/// download, or the failure.
pub fn profile_reply(outcome: Result<Vec<u8>, ProfilingFailure>) -> (reply: HttpReply)
    ensures
        match outcome {
            Ok(profile) => {
                &&& reply.status == 200
                &&& reply.content_type@ == "application/octet-stream"@
                &&& reply.content_disposition matches Some(value) && value@
                    == "attachment; filename=\"profile.pb\""@
                &&& reply.body == ReplyBody::Bytes(profile)
            },
            Err(failure) => {
                &&& reply.status == 500
                &&& reply.content_type@ == "text/plain"@
                &&& reply.content_disposition matches Some(value) && value@ == ""@
                &&& reply.body matches ReplyBody::Text(text) && text@ == failure_text(failure)
            },
        },
{
    match outcome {
        Ok(profile) => HttpReply {
            status: 200,
            content_type: "application/octet-stream",
            content_disposition: Some("attachment; filename=\"profile.pb\""),
            body: ReplyBody::Bytes(profile),
        },
        Err(failure) => failure_reply(&failure),
    }
}

/// The answer of the flamegraph endpoint: the drawing as a file to
/// download, or the failure.
pub fn flamegraph_reply(outcome: Result<Vec<u8>, ProfilingFailure>) -> (reply: HttpReply)
    ensures
        match outcome {
            Ok(drawing) => {
                &&& reply.status == 200
                &&& reply.content_type@ == "image/svg+xml"@
                &&& reply.content_disposition matches Some(value) && value@
                    == "attachment; filename=\"flamegraph.svg\""@
                &&& reply.body == ReplyBody::Bytes(drawing)
            },
            Err(failure) => {
                &&& reply.status == 500
                &&& reply.content_type@ == "text/plain"@
                &&& reply.content_disposition matches Some(value) && value@ == ""@
                &&& reply.body matches ReplyBody::Text(text) && text@ == failure_text(failure)
            },
        },
{
    match outcome {
        Ok(drawing) => HttpReply {
            status: 200,
            content_type: "image/svg+xml",
            content_disposition: Some("attachment; filename=\"flamegraph.svg\""),
            body: ReplyBody::Bytes(drawing),
        },
        Err(failure) => failure_reply(&failure),
    }
}

/// An endpoint of the profiling server.
#[derive(Clone, Copy, Debug, PartialEq, Eq, Structural)]
pub enum Endpoint {
    Profile,
    Flamegraph,
    Heap,
}

/// What an endpoint says on a system on which it cannot work.
pub open spec fn not_available_text(endpoint: Endpoint) -> Seq<char> {
    match endpoint {
        Endpoint::Profile =>
            "pprof profiling is only available on Unix/Linux systems. Use Docker for development."@,
        Endpoint::Flamegraph =>
            "Flamegraph generation is only available on Unix/Linux systems. Use Docker for development."@,
        Endpoint::Heap =>
            "Heap profiling is only available on Unix/Linux systems. Use Docker for development."@,
    }
}

/// The answer of an endpoint on a system on which it cannot work: not
/// implemented, in plain text.
pub fn not_available_reply(endpoint: Endpoint) -> (reply: HttpReply)
    ensures
        reply.status == 501,
        reply.content_type@ == "text/plain"@,
        reply.content_disposition is None,
        reply.body matches ReplyBody::Text(text) && text@ == not_available_text(endpoint),
{
    let text = match endpoint {
        Endpoint::Profile =>
            "pprof profiling is only available on Unix/Linux systems. Use Docker for development.",
        Endpoint::Flamegraph =>
            "Flamegraph generation is only available on Unix/Linux systems. Use Docker for development.",
        Endpoint::Heap =>
            "Heap profiling is only available on Unix/Linux systems. Use Docker for development.",
    };
    HttpReply {
        status: 501,
        content_type: "text/plain",
        content_disposition: None,
        body: ReplyBody::Text(String::from_str(text)),
    }
}

/// The answer of the heap endpoint where it can work: advice on tools, in
/// plain text.
pub fn heap_reply() -> (reply: HttpReply)
    ensures
        reply.status == 200,
        reply.content_type@ == "text/plain"@,
        reply.content_disposition is None,
        reply.body matches ReplyBody::Text(text) && text@ == HEAP_ADVICE@,
{
    HttpReply {
        status: 200,
        content_type: "text/plain",
        content_disposition: None,
        body: ReplyBody::Text(String::from_str(HEAP_ADVICE)),
    }
}

} // verus!
