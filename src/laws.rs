use crate::strategy::{client_error_status, vetoed, Outcome, RequestStrategy};
use vstd::arithmetic::power2::pow2;
use vstd::prelude::*;

verus! {

/// `Once` and `Idempotent` allow the first attempt unless the remote side
/// vetoes it, whatever the status, and stop at every later attempt.
pub proof fn lemma_single_attempt(
    strategy: RequestStrategy,
    status: Option<u16>,
    should_retry: Option<bool>,
    retry_count: u64,
)
    requires
        strategy is Once || strategy is Idempotent,
    ensures
        retry_count == 0 && !vetoed(should_retry) ==> strategy.decision(
            status,
            should_retry,
            retry_count,
        ) == Outcome::Continue(None),
        retry_count >= 1 ==> strategy.decision(status, should_retry, retry_count) == Outcome::Stop,
{
}

/// `Retry(max)` stops at every attempt from `max` on; before that it retries
/// without delay unless vetoed or answered with a client error.
pub proof fn lemma_retry_budget(
    max: u64,
    status: Option<u16>,
    should_retry: Option<bool>,
    retry_count: u64,
)
    ensures
        retry_count >= max ==> RequestStrategy::Retry(max).decision(
            status,
            should_retry,
            retry_count,
        ) == Outcome::Stop,
        retry_count < max && !vetoed(should_retry) && !client_error_status(status)
            ==> RequestStrategy::Retry(max).decision(status, should_retry, retry_count)
            == Outcome::Continue(None),
{
}

/// `ExponentialBackoff(max)` stops at every attempt from `max` on; before that,
/// unless vetoed or answered with a client error, it retries after
/// `2^retry_count` seconds, where that many seconds fit in a `u64`.
pub proof fn lemma_backoff_budget(
    max: u64,
    status: Option<u16>,
    should_retry: Option<bool>,
    retry_count: u64,
)
    ensures
        retry_count >= max ==> RequestStrategy::ExponentialBackoff(max).decision(
            status,
            should_retry,
            retry_count,
        ) == Outcome::Stop,
        retry_count < max && retry_count < 64 && !vetoed(should_retry) && !client_error_status(
            status,
        ) ==> (RequestStrategy::ExponentialBackoff(max).decision(
            status,
            should_retry,
            retry_count,
        ) matches Outcome::Continue(Some(d)) && d.secs == pow2(retry_count as nat)),
{
    if retry_count < 64 {
        crate::backoff::lemma_backoff_fits(retry_count as nat);
    }
}

/// After the first attempt, a client error stops every strategy.
pub proof fn lemma_client_error_stops(
    strategy: RequestStrategy,
    status: Option<u16>,
    should_retry: Option<bool>,
    retry_count: u64,
)
    requires
        retry_count >= 1,
        client_error_status(status),
    ensures
        strategy.decision(status, should_retry, retry_count) == Outcome::Stop,
{
}

/// A remote veto stops every strategy at every attempt.
pub proof fn lemma_veto_stops(strategy: RequestStrategy, status: Option<u16>, retry_count: u64)
    ensures
        strategy.decision(status, Some(false), retry_count) == Outcome::Stop,
{
}

} // verus!
