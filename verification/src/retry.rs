//! The retry budget of requests to the data availability node.
//!
//! The waiting between attempts (an exponential backoff with random jitter,
//! slept on the async runtime) is done by the caller; the policy decides
//! whether there is another attempt.

use vstd::prelude::*;

verus! {

/// Retries a failed request while retries remain, and never a success.
#[derive(Clone, Copy)]
pub struct RetryPolicy {
    remaining: usize,
}

/// One decision of the policy with `remaining` retries left: whether the
/// request is retried, and how many retries are left afterwards.
pub open spec fn retry_step(remaining: nat, failed: bool) -> (bool, nat) {
    if failed && remaining > 0 {
        (true, (remaining - 1) as nat)
    } else {
        (false, remaining)
    }
}

/// How many retries a policy with `remaining` retries left grants over the
/// outcomes `failures` of successive attempts (true for a failed one).
pub open spec fn retries_granted(remaining: nat, failures: Seq<bool>) -> nat
    decreases failures.len(),
{
    if failures.len() == 0 {
        0
    } else {
        let (retry, left) = retry_step(remaining, failures[0]);
        (if retry {
            1nat
        } else {
            0nat
        }) + retries_granted(left, failures.drop_first())
    }
}

impl View for RetryPolicy {
    type V = nat;

    /// The number of retries left.
    closed spec fn view(&self) -> nat {
        self.remaining as nat
    }
}

impl RetryPolicy {
    /// A policy that retries a failed request at most `max_retries` times.
    pub fn new(max_retries: usize) -> (policy: Self)
        ensures
            policy@ == max_retries,
    {
        RetryPolicy { remaining: max_retries }
    }

    /// Decides whether to retry after an attempt that `failed` or not, and
    /// uses up one retry when it does.
    pub fn retry(&mut self, failed: bool) -> (retry: bool)
        ensures
            (retry, final(self)@) == retry_step(old(self)@, failed),
    {
        if failed {
            if self.remaining == 0 {
                return false;
            }
            self.remaining = self.remaining - 1;
            true
        } else {
            false
        }
    }
}

/// However attempts turn out, a policy grants at most as many retries as it
/// had left, and all of them when every attempt fails.
pub proof fn lemma_retries_bounded(remaining: nat, failures: Seq<bool>)
    ensures
        retries_granted(remaining, failures) <= remaining,
        (forall|i: int| 0 <= i < failures.len() ==> failures[i]) ==> retries_granted(remaining, failures)
            == if failures.len() < remaining {
            failures.len()
        } else {
            remaining
        },
    decreases failures.len(),
{
    if failures.len() > 0 {
        let (retry, left) = retry_step(remaining, failures[0]);
        lemma_retries_bounded(left, failures.drop_first());
        if forall|i: int| 0 <= i < failures.len() ==> failures[i] {
            assert forall|i: int| 0 <= i < failures.drop_first().len() implies failures.drop_first()[i] by {
                assert(failures.drop_first()[i] == failures[i + 1]);
            }
        }
    }
}

/// The number of failed attempts among `failures`.
pub open spec fn count_failures(failures: Seq<bool>) -> nat
    decreases failures.len(),
{
    if failures.len() == 0 {
        0
    } else {
        (if failures[0] {
            1nat
        } else {
            0nat
        }) + count_failures(failures.drop_first())
    }
}

/// The retries left to a policy with `remaining` retries after the
/// outcomes `failures` of successive attempts.
pub open spec fn remaining_after(remaining: nat, failures: Seq<bool>) -> nat
    decreases failures.len(),
{
    if failures.len() == 0 {
        remaining
    } else {
        remaining_after(retry_step(remaining, failures[0]).1, failures.drop_first())
    }
}

/// Whether the attempt at index `k` of `failures` is retried by a policy
/// that started with `remaining` retries.
pub open spec fn retried_at(remaining: nat, failures: Seq<bool>, k: int) -> bool {
    retry_step(remaining_after(remaining, failures.take(k)), failures[k]).0
}

/// Every failure uses up one retry until none are left.
pub proof fn lemma_remaining_after(remaining: nat, failures: Seq<bool>)
    ensures
        remaining_after(remaining, failures) == if count_failures(failures) < remaining {
            (remaining - count_failures(failures)) as nat
        } else {
            0
        },
    decreases failures.len(),
{
    if failures.len() > 0 {
        lemma_remaining_after(retry_step(remaining, failures[0]).1, failures.drop_first());
    }
}

/// The attempts retried are exactly the failed ones among the first
/// `remaining` failures: an attempt is retried when it failed and fewer
/// than `remaining` attempts before it failed.
pub proof fn lemma_first_failures_retry(remaining: nat, failures: Seq<bool>, k: int)
    requires
        0 <= k < failures.len(),
    ensures
        retried_at(remaining, failures, k) <==> failures[k] && count_failures(failures.take(k))
            < remaining,
{
    lemma_remaining_after(remaining, failures.take(k));
}

} // verus!
