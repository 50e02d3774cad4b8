//! Figures of a load run: how many requests were made, how many failed, and
//! how long they took. Times are in nanoseconds.

use vstd::prelude::*;

verus! {

/// A sum that stops at the largest value of 64 bits.
pub open spec fn capped_u64(sum: int) -> u64 {
    if sum > u64::MAX {
        u64::MAX
    } else {
        sum as u64
    }
}

/// A sum that stops at the largest value of 128 bits.
pub open spec fn capped_u128(sum: int) -> u128 {
    if sum > u128::MAX {
        u128::MAX
    } else {
        sum as u128
    }
}

/// One request of a load run: how long it took and whether it succeeded.
pub struct Observation {
    pub latency: u128,
    pub ok: bool,
}

/// The figures of one client, or of several taken together.
#[derive(Clone, Copy, Debug, PartialEq, Eq, Structural)]
pub struct BenchmarkResult {
    pub requests: u64,
    pub errors: u64,
    pub min_latency: u128,
    pub max_latency: u128,
    pub total_latency: u128,
}

impl BenchmarkResult {
    /// The figures before any request.
    pub open spec fn spec_new() -> BenchmarkResult {
        BenchmarkResult {
            requests: 0,
            errors: 0,
            min_latency: u128::MAX,
            max_latency: 0,
            total_latency: 0,
        }
    }

    /// The figures after one more request.
    pub open spec fn recorded(self, latency: u128, ok: bool) -> BenchmarkResult {
        BenchmarkResult {
            requests: capped_u64(self.requests + 1),
            errors: if ok {
                self.errors
            } else {
                capped_u64(self.errors + 1)
            },
            min_latency: if latency < self.min_latency {
                latency
            } else {
                self.min_latency
            },
            max_latency: if latency > self.max_latency {
                latency
            } else {
                self.max_latency
            },
            total_latency: capped_u128(self.total_latency + latency),
        }
    }

    /// The figures after a sequence of requests.
    pub open spec fn recorded_all(self, observations: Seq<Observation>) -> BenchmarkResult
        decreases observations.len(),
    {
        if observations.len() == 0 {
            self
        } else {
            self.recorded_all(observations.drop_last()).recorded(
                observations.last().latency,
                observations.last().ok,
            )
        }
    }

    /// The figures of two sets of requests taken together.
    pub open spec fn merged(self, other: BenchmarkResult) -> BenchmarkResult {
        BenchmarkResult {
            requests: capped_u64(self.requests + other.requests),
            errors: capped_u64(self.errors + other.errors),
            min_latency: if other.min_latency < self.min_latency {
                other.min_latency
            } else {
                self.min_latency
            },
            max_latency: if other.max_latency > self.max_latency {
                other.max_latency
            } else {
                self.max_latency
            },
            total_latency: capped_u128(self.total_latency + other.total_latency),
        }
    }

    /// The figures before any request.
    pub fn new() -> (result: BenchmarkResult)
        ensures
            result == Self::spec_new(),
    {
        BenchmarkResult {
            requests: 0,
            errors: 0,
            min_latency: u128::MAX,
            max_latency: 0,
            total_latency: 0,
        }
    }

    /// The figures of a client that could not connect: none of its requests
    /// was made, and all count as errors.
    pub fn not_connected(requests: u64) -> (result: BenchmarkResult)
        ensures
            result == (BenchmarkResult {
                requests: 0,
                errors: requests,
                min_latency: 0,
                max_latency: 0,
                total_latency: 0,
            }),
    {
        BenchmarkResult {
            requests: 0,
            errors: requests,
            min_latency: 0,
            max_latency: 0,
            total_latency: 0,
        }
    }

    /// Counts one more request, which took `latency` and succeeded or not.
    pub fn record(&mut self, latency: u128, ok: bool)
        ensures
            *final(self) == old(self).recorded(latency, ok),
    {
        self.requests = self.requests.saturating_add(1);
        if !ok {
            self.errors = self.errors.saturating_add(1);
        }
        if latency < self.min_latency {
            self.min_latency = latency;
        }
        if latency > self.max_latency {
            self.max_latency = latency;
        }
        self.total_latency = self.total_latency.saturating_add(latency);
    }

    /// Takes the figures of `other` in.
    pub fn merge(&mut self, other: &BenchmarkResult)
        ensures
            *final(self) == old(self).merged(*other),
    {
        self.requests = self.requests.saturating_add(other.requests);
        self.errors = self.errors.saturating_add(other.errors);
        if other.min_latency < self.min_latency {
            self.min_latency = other.min_latency;
        }
        if other.max_latency > self.max_latency {
            self.max_latency = other.max_latency;
        }
        self.total_latency = self.total_latency.saturating_add(other.total_latency);
    }

    /// The mean time of a request, rounded down; none before the first
    /// request.
    pub fn average_latency(&self) -> (average: Option<u128>)
        ensures
            self.requests == 0 ==> average is None,
            self.requests > 0 ==> average == Some((self.total_latency / self.requests as u128) as u128),
    {
        if self.requests == 0 {
            None
        } else {
            Some(self.total_latency / (self.requests as u128))
        }
    }

    /// Number of requests that succeeded.
    pub fn successes(&self) -> (count: u64)
        ensures
            count == (if self.errors <= self.requests {
                self.requests - self.errors
            } else {
                0
            }),
    {
        self.requests.saturating_sub(self.errors)
    }
}

/// After any sequence of requests, no request took less than the least time
/// recorded nor more than the greatest, and the errors are no more than the
/// requests.
pub proof fn lemma_recorded_bounds(observations: Seq<Observation>)
    ensures
        ({
            let result = BenchmarkResult::spec_new().recorded_all(observations);
            &&& result.requests == capped_u64(observations.len() as int)
            &&& result.errors <= result.requests
            &&& forall|i: int|
                0 <= i < observations.len() ==> result.min_latency <= (
                #[trigger] observations[i]).latency <= result.max_latency
        }),
    decreases observations.len(),
{
    if observations.len() > 0 {
        let earlier = observations.drop_last();
        lemma_recorded_bounds(earlier);
        let before = BenchmarkResult::spec_new().recorded_all(earlier);
        let result = BenchmarkResult::spec_new().recorded_all(observations);
        assert forall|i: int| 0 <= i < observations.len() implies result.min_latency <= (
        #[trigger] observations[i]).latency <= result.max_latency by {
            if i < earlier.len() {
                assert(earlier[i] == observations[i]);
            }
        }
    }
}

} // verus!
