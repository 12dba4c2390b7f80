use vstd::prelude::*;

verus! {

/// Number of retries that a policy built with a predicate allows by default.
pub const DEFAULT_MAX_RETRIES: u32 = 5;

/// Delay before the first retry, in milliseconds.
pub const BASE_DELAY_MS: u64 = 100;

/// Largest delay between two attempts, in milliseconds.
pub const MAX_DELAY_MS: u64 = 10000;

/// Delay before retry number `k + 1`: doubling from the base delay, capped.
pub open spec fn spec_backoff(k: nat) -> nat
    decreases k,
{
    if k == 0 {
        BASE_DELAY_MS as nat
    } else {
        let d = 2 * spec_backoff((k - 1) as nat);
        if d > MAX_DELAY_MS {
            MAX_DELAY_MS as nat
        } else {
            d
        }
    }
}

/// Retry budget: how many retries are allowed, and how many were spent.
#[derive(Debug, Clone, Copy, PartialEq, Eq, Structural)]
pub struct RetryPolicy {
    pub max_retries: u32,
    pub retries: u32,
}

impl RetryPolicy {
    /// No more retries are spent than allowed.
    pub open spec fn wf(&self) -> bool {
        self.retries <= self.max_retries
    }

    /// The policy after a failed attempt whose error the predicate judged
    /// `retryable`: one more retry spent, or none when the error is not
    /// retryable or the budget is spent.
    pub open spec fn spec_next(self, retryable: bool) -> Option<RetryPolicy> {
        if retryable && self.retries < self.max_retries {
            Some(RetryPolicy { max_retries: self.max_retries, retries: (self.retries + 1) as u32 })
        } else {
            None
        }
    }

    /// A policy that never retries.
    pub fn never() -> (r: Self)
        ensures
            r.wf(),
            r.max_retries == 0,
            r.retries == 0,
    {
        RetryPolicy { max_retries: 0, retries: 0 }
    }

    /// A policy that allows up to `max_retries` retries.
    pub fn bounded(max_retries: u32) -> (r: Self)
        ensures
            r.wf(),
            r.max_retries == max_retries,
            r.retries == 0,
    {
        RetryPolicy { max_retries, retries: 0 }
    }

    /// Decide on a failed attempt: the policy for the retry, or `None` to give up.
    pub fn next(&self, retryable: bool) -> (r: Option<RetryPolicy>)
        requires
            self.wf(),
        ensures
            r == self.spec_next(retryable),
            r matches Some(p) ==> p.wf(),
    {
        if retryable && self.retries < self.max_retries {
            Some(RetryPolicy { max_retries: self.max_retries, retries: self.retries + 1 })
        } else {
            None
        }
    }

    /// Delay to wait before the next retry, in milliseconds.
    pub fn backoff_ms(&self) -> (r: u64)
        ensures
            r == spec_backoff(self.retries as nat),
    {
        let mut d: u64 = BASE_DELAY_MS;
        let mut i: u32 = 0;
        while i < self.retries
            invariant
                i <= self.retries,
                d == spec_backoff(i as nat),
                d <= MAX_DELAY_MS,
            decreases self.retries - i,
        {
            if d == MAX_DELAY_MS {
                proof {
                    lemma_backoff_saturates(i as nat, self.retries as nat);
                }
                return d;
            }
            let twice = 2 * d;
            d = if twice > MAX_DELAY_MS {
                MAX_DELAY_MS
            } else {
                twice
            };
            i = i + 1;
        }
        d
    }
}

/// Once the delay reaches its cap it stays there.
proof fn lemma_backoff_saturates(i: nat, k: nat)
    requires
        spec_backoff(i) == MAX_DELAY_MS,
        i <= k,
    ensures
        spec_backoff(k) == MAX_DELAY_MS,
    decreases k - i,
{
    if i < k {
        lemma_backoff_saturates(i, (k - 1) as nat);
    }
}

/// The policy after `k` failed attempts that were all judged retryable, or
/// `None` once it has given up.
pub open spec fn after_failures(p: RetryPolicy, k: nat) -> Option<RetryPolicy>
    decreases k,
{
    if k == 0 {
        Some(p)
    } else {
        match after_failures(p, (k - 1) as nat) {
            Some(q) => q.spec_next(true),
            None => None,
        }
    }
}

/// Retries are bounded even when every error is judged retryable: the
/// policy keeps granting retries for exactly its remaining budget, and gives
/// up on the failure after that.
pub proof fn lemma_retry_bound(p: RetryPolicy)
    requires
        p.wf(),
    ensures
        forall|k: nat|
            k <= p.max_retries - p.retries ==> #[trigger] after_failures(p, k) == Some(
                RetryPolicy { max_retries: p.max_retries, retries: (p.retries + k) as u32 },
            ),
        after_failures(p, (p.max_retries - p.retries + 1) as nat) is None,
{
    assert forall|k: nat| k <= p.max_retries - p.retries implies #[trigger] after_failures(p, k)
        == Some(RetryPolicy { max_retries: p.max_retries, retries: (p.retries + k) as u32 }) by {
        lemma_after_failures(p, k);
    }
    lemma_after_failures(p, (p.max_retries - p.retries) as nat);
}

proof fn lemma_after_failures(p: RetryPolicy, k: nat)
    requires
        p.wf(),
        k <= p.max_retries - p.retries,
    ensures
        after_failures(p, k) == Some(
            RetryPolicy { max_retries: p.max_retries, retries: (p.retries + k) as u32 },
        ),
    decreases k,
{
    if k > 0 {
        lemma_after_failures(p, (k - 1) as nat);
    }
}

} // verus!
