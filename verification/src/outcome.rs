//! Request outcome processing: the reusable policy that turns a completed
//! fallible request into an updated online/offline status, with exponential
//! backoff on connection failures and immediate fatal propagation on
//! non-connection failures.

use vstd::prelude::*;

verus! {

/// Which client's failure ends a race.
#[derive(Clone, Copy, Debug, PartialEq, Eq, Structural)]
pub enum FailedClient {
    /// The source client failed with a non-connection error.
    Source,
    /// The target client failed with a non-connection error.
    Target,
    /// The race stalled: neither side made progress for too long.
    Both,
}

/// Outcome of one completed request against a ledger client, classified by
/// the caller: connection failures are transient and retried after a
/// backoff, every other failure is fatal for that side.
#[derive(Debug)]
pub enum RequestOutcome<T> {
    /// The request succeeded with this value.
    Success(T),
    /// The request failed because of connectivity: network, timeout,
    /// temporary unavailability.
    ConnectionError,
    /// The request failed for any other reason: malformed response,
    /// protocol violation.
    LogicError,
}

/// The delay to wait after a connection failure, doubled and capped.
pub open spec fn doubled_capped(current_ms: u64, max_ms: u64) -> u64 {
    if 2 * current_ms <= max_ms {
        (2 * current_ms) as u64
    } else {
        max_ms
    }
}

/// Exponential retry backoff: the delay doubles on every connection
/// failure up to a cap, and resets on the next success.
#[derive(Clone, Copy, Debug, PartialEq, Eq, Structural)]
pub struct RetryBackoff {
    /// Delay to schedule on the next connection failure.
    pub current_ms: u64,
    /// Delay restored by a success.
    pub initial_ms: u64,
    /// The cap the delay never exceeds.
    pub max_ms: u64,
}

/// Backoff left after a connection failure: the delay doubles, up to the
/// cap.
pub open spec fn backoff_after_failure(b: RetryBackoff) -> RetryBackoff {
    RetryBackoff { current_ms: doubled_capped(b.current_ms, b.max_ms), ..b }
}

/// Backoff left after a success: the delay resets to the initial delay.
pub open spec fn backoff_after_success(b: RetryBackoff) -> RetryBackoff {
    RetryBackoff { current_ms: b.initial_ms, ..b }
}

impl RetryBackoff {
    /// The delay stays between the configured initial delay and the cap.
    pub open spec fn wf(self) -> bool {
        1 <= self.initial_ms && self.initial_ms <= self.current_ms && self.current_ms
            <= self.max_ms
    }

    /// New backoff starting at `initial_ms`, never exceeding `max_ms`.
    pub fn new(initial_ms: u64, max_ms: u64) -> (b: RetryBackoff)
        requires
            1 <= initial_ms <= max_ms,
        ensures
            b.wf(),
            b == (RetryBackoff { current_ms: initial_ms, initial_ms, max_ms }),
    {
        RetryBackoff { current_ms: initial_ms, initial_ms, max_ms }
    }

    /// Take the current delay and double it for the next failure, up to the
    /// cap. Successive delays never decrease.
    pub fn next_delay(&mut self) -> (delay_ms: u64)
        requires
            old(self).wf(),
        ensures
            final(self).wf(),
            delay_ms == old(self).current_ms,
            *final(self) == backoff_after_failure(*old(self)),
            final(self).current_ms >= old(self).current_ms,
    {
        let delay_ms = self.current_ms;
        if self.current_ms <= self.max_ms / 2 {
            self.current_ms = self.current_ms * 2;
        } else {
            self.current_ms = self.max_ms;
        }
        delay_ms
    }

    /// A success resets the delay to the configured initial delay.
    pub fn reset(&mut self)
        requires
            old(self).wf(),
        ensures
            final(self).wf(),
            *final(self) == backoff_after_success(*old(self)),
    {
        self.current_ms = self.initial_ms;
    }
}

/// What a completed request means for its side of the race.
#[derive(Clone, Copy, Debug, PartialEq, Eq, Structural)]
pub enum OutcomeDisposition {
    /// The side is online and may issue its next request at once.
    Online,
    /// The side is offline; retry only after this delay has elapsed.
    Offline {
        /// How long to sleep before the side may retry.
        retry_delay_ms: u64,
    },
    /// The failure is fatal for this side; the race must terminate.
    Fatal,
}

/// Turns a completed request into the side's next status: a success resets
/// the backoff and reports the side online, a connection failure schedules
/// the current backoff delay and doubles it for the next failure, and any
/// other failure is fatal. The success side effect itself is applied by the
/// caller.
pub fn process_request_outcome<T>(outcome: &RequestOutcome<T>, backoff: &mut RetryBackoff) -> (r:
    OutcomeDisposition)
    requires
        old(backoff).wf(),
    ensures
        final(backoff).wf(),
        outcome is Success ==> r == OutcomeDisposition::Online && *final(backoff)
            == backoff_after_success(*old(backoff)),
        outcome is ConnectionError ==> r == (OutcomeDisposition::Offline {
            retry_delay_ms: old(backoff).current_ms,
        }) && *final(backoff) == backoff_after_failure(*old(backoff)),
        outcome is LogicError ==> r == OutcomeDisposition::Fatal && *final(backoff) == *old(
            backoff,
        ),
{
    match outcome {
        RequestOutcome::Success(_) => {
            backoff.reset();
            OutcomeDisposition::Online
        },
        RequestOutcome::ConnectionError => {
            let retry_delay_ms = backoff.next_delay();
            OutcomeDisposition::Offline { retry_delay_ms }
        },
        RequestOutcome::LogicError => OutcomeDisposition::Fatal,
    }
}

} // verus!
