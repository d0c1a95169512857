//! Waiting time between two attempts of an egress to reach its server: it doubles
//! after each failed attempt, from 100 ms up to 30 s.
use vstd::arithmetic::power2::{lemma_pow2_strictly_increases, lemma_pow2_unfold, pow2};
use vstd::prelude::*;

verus! {

/// First waiting time, in milliseconds.
pub const FIRST_RECONNECT_DELAY_MS: u64 = 100;

/// Longest waiting time, in milliseconds.
pub const MAX_RECONNECT_DELAY_MS: u64 = 30_000;

/// Waiting time after `retry` failed attempts in a row: 100 ms times 2 to the power
/// `retry`, but never more than 30 s.
pub open spec fn spec_reconnect_delay_ms(retry: nat) -> nat {
    let d = (FIRST_RECONNECT_DELAY_MS * pow2(retry)) as nat;
    if d < MAX_RECONNECT_DELAY_MS {
        d
    } else {
        MAX_RECONNECT_DELAY_MS as nat
    }
}

/// Waiting time, in milliseconds, before the attempt that follows `retry` failed
/// attempts in a row.
pub fn reconnect_delay_ms(retry: u32) -> (r: u64)
    ensures
        r == spec_reconnect_delay_ms(retry as nat),
        r <= MAX_RECONNECT_DELAY_MS,
{
    let mut delay: u64 = FIRST_RECONNECT_DELAY_MS;
    let mut i: u32 = 0;
    assert(pow2(0) == 1) by {
        vstd::arithmetic::power2::lemma2_to64();
    }
    while i < retry && delay < MAX_RECONNECT_DELAY_MS
        invariant
            i <= retry,
            delay == FIRST_RECONNECT_DELAY_MS * pow2(i as nat),
            i > 0 ==> FIRST_RECONNECT_DELAY_MS * pow2((i - 1) as nat) < MAX_RECONNECT_DELAY_MS,
        decreases retry - i,
    {
        proof {
            lemma_pow2_unfold((i + 1) as nat);
        }
        delay = delay * 2;
        i = i + 1;
    }
    proof {
        if i < retry {
            lemma_pow2_strictly_increases(i as nat, retry as nat);
        }
    }
    if delay < MAX_RECONNECT_DELAY_MS {
        delay
    } else {
        MAX_RECONNECT_DELAY_MS
    }
}

/// The waiting time never decreases as failed attempts accumulate, and never
/// exceeds 30 s.
pub proof fn lemma_reconnect_delay_monotonic(a: nat, b: nat)
    requires
        a <= b,
    ensures
        spec_reconnect_delay_ms(a) <= spec_reconnect_delay_ms(b),
        spec_reconnect_delay_ms(b) <= MAX_RECONNECT_DELAY_MS,
{
    if a < b {
        lemma_pow2_strictly_increases(a, b);
    }
}

/// Each further failed attempt doubles the waiting time, up to 30 s.
pub proof fn lemma_reconnect_delay_doubles(retry: nat)
    ensures
        spec_reconnect_delay_ms(retry + 1) == (if 2 * spec_reconnect_delay_ms(retry)
            < MAX_RECONNECT_DELAY_MS {
            2 * spec_reconnect_delay_ms(retry)
        } else {
            MAX_RECONNECT_DELAY_MS as nat
        }),
{
    lemma_pow2_unfold(retry + 1);
}

/// Counts the failed attempts of an egress to reach its server.
pub struct Backoff {
    retry: u32,
}

impl Backoff {
    /// Number of failed attempts in a row.
    pub closed spec fn spec_retry(&self) -> u32 {
        self.retry
    }

    /// No failed attempt yet.
    pub fn new() -> (r: Self)
        ensures
            r.spec_retry() == 0,
    {
        Backoff { retry: 0 }
    }

    /// Waiting time before the next attempt.
    pub fn delay_ms(&self) -> (r: u64)
        ensures
            r == spec_reconnect_delay_ms(self.spec_retry() as nat),
    {
        reconnect_delay_ms(self.retry)
    }

    /// The tunnel is established: the next failure waits the first waiting time again.
    pub fn connected(&mut self)
        ensures
            final(self).spec_retry() == 0,
    {
        self.retry = 0;
    }

    /// The waiting time after a failed attempt has passed: one more failed attempt
    /// (the count stops at `u32::MAX`, where the waiting time is long at its
    /// longest).
    pub fn waited(&mut self)
        ensures
            final(self).spec_retry() == (if old(self).spec_retry() < u32::MAX {
                (old(self).spec_retry() + 1) as u32
            } else {
                u32::MAX
            }),
    {
        self.retry = self.retry.saturating_add(1);
    }
}

} // verus!
