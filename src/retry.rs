use vstd::prelude::*;

verus! {

/// Attempts made for one request before giving up.
pub const MAX_RETRIES: u32 = 3;

/// The wait after the first failed attempt; it doubles after each one.
pub const RETRY_DELAY_MS: u64 = 1000;

/// What one attempt at a request came back with.
#[derive(Clone, Copy, Debug, PartialEq, Eq, Structural)]
pub enum Attempt {
    /// The server answered with this HTTP status code.
    Status(u16),
    /// The request never got an answer (connection failure, timeout).
    TransportError,
}

/// What to do after an attempt.
#[derive(Clone, Copy, Debug, PartialEq, Eq, Structural)]
pub enum RetryDecision {
    /// Hand the response to the caller, whatever its status.
    Accept,
    /// Wait this many milliseconds, then attempt again.
    Backoff(u64),
    /// Attempts are used up: surface the last transport error.
    GiveUp,
}

pub open spec fn pow2(n: nat) -> nat
    decreases n,
{
    if n == 0 {
        1
    } else {
        2 * pow2((n - 1) as nat)
    }
}

/// A status in the success class (2xx).
pub open spec fn spec_is_success(code: u16) -> bool {
    200 <= code <= 299
}

/// "Forbidden" and "too many requests": the server asks us to slow down.
pub open spec fn spec_is_rate_limited(code: u16) -> bool {
    code == 403 || code == 429
}

/// The wait after the attempt with the given index (from 0).
pub open spec fn backoff_ms(attempt: nat) -> nat {
    RETRY_DELAY_MS as nat * pow2(attempt)
}

/// The decision after the attempt with index `k` came back with `a`.
pub open spec fn decide(k: nat, a: Attempt) -> RetryDecision {
    let more = k + 1 < MAX_RETRIES;
    match a {
        Attempt::Status(code) => {
            if spec_is_rate_limited(code) && more {
                RetryDecision::Backoff(backoff_ms(k) as u64)
            } else {
                RetryDecision::Accept
            }
        },
        Attempt::TransportError => {
            if more {
                RetryDecision::Backoff(backoff_ms(k) as u64)
            } else {
                RetryDecision::GiveUp
            }
        },
    }
}

/// True iff the status is in the success class (2xx).
pub fn is_success(code: u16) -> (r: bool)
    ensures
        r == spec_is_success(code),
{
    200 <= code && code <= 299
}

/// True iff the status asks the client to back off (403 or 429).
pub fn is_rate_limited(code: u16) -> (r: bool)
    ensures
        r == spec_is_rate_limited(code),
{
    code == 403 || code == 429
}

/// The retry policy for one request: up to three attempts, with a wait of
/// 1000 ms, then 2000 ms, between them.
pub struct RetryPolicy {
    attempt: u32,
}

impl RetryPolicy {
    /// Attempts made so far.
    pub closed spec fn attempts(&self) -> nat {
        self.attempt as nat
    }

    /// Whether another attempt may be made.
    pub open spec fn may_attempt(&self) -> bool {
        self.attempts() < MAX_RETRIES
    }

    pub fn new() -> (r: RetryPolicy)
        ensures
            r.attempts() == 0,
    {
        RetryPolicy { attempt: 0 }
    }

    /// Records the result of one attempt and says what to do next. A success,
    /// a "not found" or any other status that is not a rate limit is accepted
    /// at once; a rate limit or a transport error waits and retries while
    /// attempts remain.
    pub fn on_attempt(&mut self, a: Attempt) -> (d: RetryDecision)
        requires
            old(self).may_attempt(),
        ensures
            final(self).attempts() == old(self).attempts() + 1,
            d == decide(old(self).attempts(), a),
            d is Backoff ==> final(self).may_attempt(),
    {
        let k = self.attempt;
        self.attempt = k + 1;
        let more = k + 1 < MAX_RETRIES;
        let wait: u64 = if k == 0 {
            RETRY_DELAY_MS
        } else {
            2 * RETRY_DELAY_MS
        };
        proof {
            if more {
                assert(pow2(1) == 2) by {
                    reveal_with_fuel(pow2, 2);
                }
                assert(wait == backoff_ms(k as nat));
            }
        }
        match a {
            Attempt::Status(code) => {
                if is_rate_limited(code) && more {
                    RetryDecision::Backoff(wait)
                } else {
                    RetryDecision::Accept
                }
            },
            Attempt::TransportError => {
                if more {
                    RetryDecision::Backoff(wait)
                } else {
                    RetryDecision::GiveUp
                }
            },
        }
    }
}

/// A status that is neither a rate limit nor anything retried is handed back
/// after the first attempt: success, "not found" and every other error
/// status alike.
pub proof fn lemma_other_status_not_retried(code: u16)
    requires
        !spec_is_rate_limited(code),
    ensures
        decide(0, Attempt::Status(code)) == RetryDecision::Accept,
{
}

/// Whatever comes back, a request is attempted at most three times: a wait
/// is only ever asked for while attempts remain.
pub proof fn lemma_backoff_leaves_room(k: nat, a: Attempt)
    requires
        k < MAX_RETRIES,
    ensures
        decide(k, a) is Backoff ==> k + 1 < MAX_RETRIES,
        decide(k, a) matches RetryDecision::Backoff(ms) ==> ms == backoff_ms(k),
{
    if k + 1 < MAX_RETRIES {
        reveal_with_fuel(pow2, 2);
    }
}

} // verus!
