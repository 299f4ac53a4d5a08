//! A running time budget: how much of an overall deadline is left,
//! measured from the moment the budget was created.

use vstd::prelude::*;

verus! {

/// A time budget started at some instant, in milliseconds.
pub struct Timeout {
    timeout_ms: u64,
    started_ms: u64,
}

/// What is left of a budget at instant `now_ms`: the budget minus the
/// time elapsed since the start, floored at zero (also when the clock
/// reads earlier than the start).
pub open spec fn spec_remaining(timeout_ms: u64, started_ms: u64, now_ms: u64) -> u64 {
    if started_ms <= now_ms && now_ms - started_ms <= timeout_ms {
        (timeout_ms - (now_ms - started_ms)) as u64
    } else {
        0u64
    }
}

/// Relies on `std::time::SystemTime::now` and
/// `SystemTime::duration_since`: the milliseconds since the UNIX
/// epoch, truncated to 64 bits. Nothing is promised of the value.
#[verifier::external_body]
fn now_millis() -> u64 {
    std::time::SystemTime::now().duration_since(std::time::SystemTime::UNIX_EPOCH).map(
        |d| d.as_millis() as u64,
    ).unwrap_or(0)
}

impl Timeout {
    pub closed spec fn spec_timeout_ms(&self) -> u64 {
        self.timeout_ms
    }

    pub closed spec fn spec_started_ms(&self) -> u64 {
        self.started_ms
    }

    /// Start a budget of `timeout_ms` milliseconds now.
    pub fn new(timeout_ms: u64) -> (t: Timeout)
        ensures
            t.spec_timeout_ms() == timeout_ms,
    {
        Timeout { timeout_ms, started_ms: now_millis() }
    }

    /// What is left of the budget at the given instant.
    pub fn remaining_at(&self, now_ms: u64) -> (r: u64)
        ensures
            r == spec_remaining(self.spec_timeout_ms(), self.spec_started_ms(), now_ms),
            r <= self.spec_timeout_ms(),
    {
        if self.started_ms <= now_ms && now_ms - self.started_ms <= self.timeout_ms {
            self.timeout_ms - (now_ms - self.started_ms)
        } else {
            0
        }
    }

    /// What is left of the budget now; zero once the budget has run
    /// out.
    pub fn remaining(&self) -> (r: u64)
        ensures
            r <= self.spec_timeout_ms(),
    {
        self.remaining_at(now_millis())
    }
}

} // verus!
