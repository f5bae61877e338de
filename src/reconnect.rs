use vstd::prelude::*;

verus! {

/// Highest number of consecutive failed attempts after which a retry is still allowed.
pub const MAX_ATTEMPTS: usize = 5;

/// Base of the exponential back-off, in milliseconds per step.
pub const BACKOFF_BASE: u64 = 5;

/// What the transport should do after a dropped connection.
#[derive(Debug, Clone, Copy, PartialEq, Eq, Structural)]
pub enum RetryDecision {
    /// Try again after this many milliseconds.
    RetryAfterMillis(u64),
    /// The ceiling is exceeded: the failure needs an operator.
    GiveUp,
}

/// The reconnection policy of both accounts.
#[derive(Debug, Clone, Copy, PartialEq, Eq, Structural)]
pub struct Reconnection;

/// `base` raised to `exp`.
pub open spec fn pow_spec(base: nat, exp: nat) -> nat
    decreases exp,
{
    if exp == 0 {
        1
    } else {
        base * pow_spec(base, (exp - 1) as nat)
    }
}

/// The decision for a given number of consecutive failed attempts.
pub open spec fn decision_for(attempts: nat) -> RetryDecision {
    if attempts > MAX_ATTEMPTS {
        RetryDecision::GiveUp
    } else {
        RetryDecision::RetryAfterMillis(pow_spec(BACKOFF_BASE as nat, attempts) as u64)
    }
}

proof fn lemma_pow_bound(exp: nat)
    requires
        exp <= MAX_ATTEMPTS,
    ensures
        pow_spec(BACKOFF_BASE as nat, exp) <= 3125,
    decreases exp,
{
    reveal_with_fuel(pow_spec, 6);
}

impl Reconnection {
    /// Wait 5^attempts milliseconds (1, 5, 25, ...) while `attempts` is at most
    /// five; give up beyond that.
    pub fn should_retry(&self, attempts: usize) -> (r: RetryDecision)
        ensures
            r == decision_for(attempts as nat),
            attempts > MAX_ATTEMPTS <==> r == RetryDecision::GiveUp,
    {
        if attempts > MAX_ATTEMPTS {
            return RetryDecision::GiveUp;
        }
        let mut wait: u64 = 1;
        let mut i: usize = 0;
        while i < attempts
            invariant
                i <= attempts <= MAX_ATTEMPTS,
                wait as nat == pow_spec(BACKOFF_BASE as nat, i as nat),
            decreases attempts - i,
        {
            proof {
                lemma_pow_bound(i as nat);
            }
            wait = wait * BACKOFF_BASE;
            i = i + 1;
        }
        RetryDecision::RetryAfterMillis(wait)
    }
}

} // verus!
