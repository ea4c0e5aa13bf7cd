use vstd::arithmetic::power2::{lemma2_to64, lemma2_to64_rest, lemma_pow2_strictly_increases, lemma_pow2_unfold, pow2};
use vstd::prelude::*;

verus! {

/// A wait before the next attempt, in whole seconds.
#[derive(Clone, Copy, Debug, PartialEq, Eq)]
pub struct Delay {
    pub secs: u64,
}

impl Delay {
    /// A delay of `secs` seconds.
    pub fn from_secs(secs: u64) -> (r: Delay)
        ensures
            r.secs == secs,
    {
        Delay { secs }
    }

    /// The length of the delay in seconds.
    pub fn as_secs(&self) -> (r: u64)
        ensures
            r == self.secs,
    {
        self.secs
    }
}

/// Below 64 doublings, `2^n` seconds fit in a `u64`.
pub proof fn lemma_backoff_fits(n: nat)
    requires
        n < 64,
    ensures
        pow2(n) <= u64::MAX,
{
    lemma2_to64();
    lemma2_to64_rest();
    if n < 63 {
        lemma_pow2_strictly_increases(n, 63);
    }
}

/// The delay before the retry that follows attempt `retry_count`: one second,
/// doubled once per earlier retry, so `2^retry_count` seconds. The result only
/// fits in a `u64` of seconds while `retry_count < 64`.
pub fn calculate_backoff(retry_count: u64) -> (r: Delay)
    requires
        retry_count < 64,
    ensures
        r.secs == pow2(retry_count as nat),
{
    let mut secs: u64 = 1;
    let mut i: u64 = 0;
    proof {
        lemma2_to64();
    }
    while i < retry_count
        invariant
            i <= retry_count < 64,
            secs == pow2(i as nat),
        decreases retry_count - i,
    {
        proof {
            lemma_backoff_fits((i + 1) as nat);
            lemma_pow2_unfold((i + 1) as nat);
        }
        secs = secs * 2;
        i = i + 1;
    }
    Delay { secs }
}

} // verus!
