use crate::backoff::{calculate_backoff, Delay};
use vstd::arithmetic::power2::pow2;
use vstd::prelude::*;

verus! {

/// How a single logical request may be attempted.
#[derive(Clone, Debug)]
pub enum RequestStrategy {
    /// Attempt the request once.
    Once,
    /// Attempt the request once under the given idempotency key.
    Idempotent(String),
    /// Retry up to n times without delay, under one random idempotency key.
    Retry(u64),
    /// Retry up to n times under one random idempotency key, doubling the
    /// delay before each retry.
    ExponentialBackoff(u64),
}

/// What to do after a decision: stop, or make another attempt, first waiting
/// for the delay if there is one.
#[derive(Clone, Copy, Debug, PartialEq, Eq)]
pub enum Outcome {
    Stop,
    Continue(Option<Delay>),
}

/// A status code in the client error range 400..=499.
pub open spec fn client_error_code(code: u16) -> bool {
    400 <= code < 500
}

/// The latest attempt was answered with a client error.
pub open spec fn client_error_status(status: Option<u16>) -> bool {
    status matches Some(c) && client_error_code(c)
}

/// The remote side advised against retrying.
pub open spec fn vetoed(should_retry: Option<bool>) -> bool {
    should_retry == Some(false)
}

/// Whether `code` is in the client error range.
pub fn is_client_error(code: u16) -> (r: bool)
    ensures
        r == client_error_code(code),
{
    400 <= code && code < 500
}

impl RequestStrategy {
    /// The decision is to retry after a backoff delay of `2^retry_count`
    /// seconds.
    pub open spec fn needs_backoff(
        &self,
        status: Option<u16>,
        should_retry: Option<bool>,
        retry_count: u64,
    ) -> bool {
        &&& !vetoed(should_retry)
        &&& !client_error_status(status)
        &&& *self matches RequestStrategy::ExponentialBackoff(max) && retry_count < max
    }

    /// The decision, by priority: a remote veto stops; a single-attempt
    /// strategy runs its first attempt and stops after it; a client error stops
    /// the others; a retrying strategy goes on while attempts remain in its
    /// budget, with a delay of `2^retry_count` seconds under backoff; anything
    /// else stops.
    pub open spec fn decision(
        &self,
        status: Option<u16>,
        should_retry: Option<bool>,
        retry_count: u64,
    ) -> Outcome {
        if vetoed(should_retry) {
            Outcome::Stop
        } else {
            match *self {
                RequestStrategy::Once | RequestStrategy::Idempotent(_) => {
                    if retry_count == 0 {
                        Outcome::Continue(None)
                    } else {
                        Outcome::Stop
                    }
                },
                RequestStrategy::Retry(max) => {
                    if client_error_status(status) || retry_count >= max {
                        Outcome::Stop
                    } else {
                        Outcome::Continue(None)
                    }
                },
                RequestStrategy::ExponentialBackoff(max) => {
                    if client_error_status(status) || retry_count >= max {
                        Outcome::Stop
                    } else {
                        Outcome::Continue(Some(Delay { secs: pow2(retry_count as nat) as u64 }))
                    }
                },
            }
        }
    }

    /// Decides what follows attempt number `retry_count` (zero before the
    /// first attempt), given the status of the latest response, if any, and
    /// the remote side's advice on retrying, if any. The backoff delay must fit
    /// in a `u64` of seconds; `checked_test` reports when it does not.
    pub fn test(&self, status: Option<u16>, should_retry: Option<bool>, retry_count: u64) -> (r:
        Outcome)
        requires
            self.needs_backoff(status, should_retry, retry_count) ==> retry_count < 64,
        ensures
            r == self.decision(status, should_retry, retry_count),
    {
        if !should_retry.unwrap_or(true) {
            return Outcome::Stop;
        }
        let client_error = match status {
            Some(code) => is_client_error(code),
            None => false,
        };
        match self {
            RequestStrategy::Once | RequestStrategy::Idempotent(_) => {
                if retry_count == 0 {
                    Outcome::Continue(None)
                } else {
                    Outcome::Stop
                }
            },
            RequestStrategy::Retry(max) => {
                if client_error || retry_count >= *max {
                    Outcome::Stop
                } else {
                    Outcome::Continue(None)
                }
            },
            RequestStrategy::ExponentialBackoff(max) => {
                if client_error || retry_count >= *max {
                    Outcome::Stop
                } else {
                    Outcome::Continue(Some(calculate_backoff(retry_count)))
                }
            },
        }
    }

    /// As `test`, but `None` where the backoff delay would not fit in a `u64`
    /// of seconds.
    pub fn checked_test(
        &self,
        status: Option<u16>,
        should_retry: Option<bool>,
        retry_count: u64,
    ) -> (r: Option<Outcome>)
        ensures
            r is None <==> (self.needs_backoff(status, should_retry, retry_count) && retry_count
                >= 64),
            r matches Some(o) ==> o == self.decision(status, should_retry, retry_count),
    {
        let backoff_due = match self {
            RequestStrategy::ExponentialBackoff(max) => retry_count < *max,
            _ => false,
        };
        let client_error = match status {
            Some(code) => is_client_error(code),
            None => false,
        };
        let vetoed = match should_retry {
            Some(b) => !b,
            None => false,
        };
        if backoff_due && !client_error && !vetoed && retry_count >= 64 {
            None
        } else {
            Some(self.test(status, should_retry, retry_count))
        }
    }
}

} // verus!
