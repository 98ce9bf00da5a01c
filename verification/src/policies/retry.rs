//! Retry policies: how often a failing operation is run again, and how long
//! to wait in between.
use vstd::prelude::*;
use vstd::arithmetic::power2::{pow2, lemma_pow2_unfold, lemma_pow2_pos};

verus! {

broadcast use vstd::function::group_function_axioms;

/// The outcomes seen by one retried run: the operation was run once per
/// entry, it stopped at the first success, and it only ran fewer than
/// `limit` times when the last run succeeded.
pub open spec fn settles<T>(outs: Seq<Result<T, String>>, limit: nat) -> bool {
    &&& 1 <= outs.len() <= limit
    &&& forall|i: int| 0 <= i < outs.len() - 1 ==> #[trigger] outs[i] is Err
    &&& outs.last() is Err ==> outs.len() == limit
}

/// The wait before the retry that follows failure number `k` (counting
/// from 0): it starts at `min` and doubles after every failure, capped at
/// `max`.
pub open spec fn backoff_delay(min: nat, max: nat, k: nat) -> nat
    decreases k,
{
    if k == 0 {
        min
    } else {
        let d = backoff_delay(min, max, (k - 1) as nat);
        if 2 * d <= max {
            2 * d
        } else {
            max
        }
    }
}

/// A policy that decides how many times an operation is run and how long
/// to wait before each run. The operation is handed the number of the run
/// (from 0) and the wait, in milliseconds, to perform before it; performing
/// the wait is left to the operation, so the policy stays free of clocks.
pub trait RetryPolicy: Send + Sync {
    /// Greatest number of runs of the operation in one `attempt`.
    spec fn attempt_limit(&self) -> nat;

    /// The wait, in milliseconds, before run `k` (none before the first).
    spec fn wait_before(&self, k: nat) -> u64;

    /// Runs `operation` until it succeeds or the attempt limit is reached,
    /// and returns the outcome of the last run. Run `k` is the call
    /// `operation(k, wait_before(k))`, and its outcome is `outs[k]`.
    fn attempt<T, F>(&self, operation: F) -> (r: Result<T, String>) where
        F: FnMut(usize, u64) -> Result<T, String>,

        requires
            forall|k: usize|
                k < self.attempt_limit() ==> #[trigger] call_requires(
                    operation,
                    (k, self.wait_before(k as nat)),
                ),
        ensures
            exists|outs: Seq<Result<T, String>>|
                {
                    &&& settles(outs, self.attempt_limit())
                    &&& forall|k: int|
                        0 <= k < outs.len() ==> call_ensures(
                            operation,
                            (k as usize, self.wait_before(k as nat)),
                            #[trigger] outs[k],
                        )
                    &&& r == outs.last()
                },
    ;
}

/// Runs the operation exactly once.
pub struct NoRetry;

impl RetryPolicy for NoRetry {
    open spec fn attempt_limit(&self) -> nat {
        1
    }

    open spec fn wait_before(&self, k: nat) -> u64 {
        0
    }

    fn attempt<T, F>(&self, op: F) -> (r: Result<T, String>) where
        F: FnMut(usize, u64) -> Result<T, String>,
    {
        let mut operation = op;
        assert(call_requires(operation, (0usize, self.wait_before(0))));
        let r = operation(0, 0);
        assert(settles(seq![r], 1));
        assert(seq![r].last() == r);
        assert(seq![r][0] == r);
        r
    }
}

/// Runs the operation up to a fixed number of times, back to back.
pub struct SpinRetry {
    attempts: usize,
}

impl SpinRetry {
    #[verifier::type_invariant]
    spec fn inv(self) -> bool {
        self.attempts >= 1
    }

    /// The number of runs this policy allows.
    pub closed spec fn attempts(self) -> nat {
        self.attempts as nat
    }

    /// A policy that runs the operation up to `attempts` times (at least once).
    pub fn new(attempts: usize) -> (r: Self)
        ensures
            r.attempts() == if attempts >= 1 { attempts as nat } else { 1 },
    {
        SpinRetry { attempts: if attempts >= 1 { attempts } else { 1 } }
    }
}

impl RetryPolicy for SpinRetry {
    open spec fn attempt_limit(&self) -> nat {
        self.attempts()
    }

    /// Runs follow each other without waiting.
    open spec fn wait_before(&self, k: nat) -> u64 {
        0
    }

    fn attempt<T, F>(&self, op: F) -> (r: Result<T, String>) where
        F: FnMut(usize, u64) -> Result<T, String>,
    {
        proof {
            use_type_invariant(self);
        }
        let mut operation = op;
        let mut last_error = String::from_str("operation failed");
        let ghost mut outs: Seq<Result<T, String>> = Seq::empty();
        let n = self.attempts;
        let mut i: usize = 0;
        while i < n
            invariant
                n == self.attempts() >= 1,
                i <= n,
                outs.len() == i,
                operation == op,
                forall|k: usize|
                    k < self.attempt_limit() ==> #[trigger] call_requires(
                        operation,
                        (k, self.wait_before(k as nat)),
                    ),
                forall|k: int| 0 <= k < outs.len() ==> #[trigger] outs[k] is Err,
                forall|k: int|
                    0 <= k < outs.len() ==> call_ensures(
                        operation,
                        (k as usize, self.wait_before(k as nat)),
                        #[trigger] outs[k],
                    ),
                i > 0 ==> outs.last() == Err::<T, String>(last_error),
            decreases n - i,
        {
            assert(call_requires(operation, (i, self.wait_before(i as nat))));
            let r = operation(i, 0);
            proof {
                outs = outs.push(r);
                assert(outs[i as int] == r);
            }
            match r {
                Ok(value) => {
                    assert(settles(outs, self.attempt_limit()));
                    return Ok(value);
                },
                Err(err) => {
                    last_error = err;
                },
            }
            i = i + 1;
        }
        assert(settles(outs, self.attempt_limit()));
        Err(last_error)
    }
}

/// Runs the operation up to a fixed number of times, waiting between runs;
/// the wait starts at `min_ms` and doubles after each failure, never
/// exceeding `max_ms`.
pub struct ExponentialBackoff {
    min_ms: u64,
    max_ms: u64,
    max_attempts: usize,
}

impl ExponentialBackoff {
    #[verifier::type_invariant]
    spec fn inv(self) -> bool {
        &&& 1 <= self.min_ms <= self.max_ms
        &&& self.max_attempts >= 1
    }

    /// The first wait, in milliseconds.
    pub closed spec fn min_delay(self) -> nat {
        self.min_ms as nat
    }

    /// The cap on every wait, in milliseconds.
    pub closed spec fn max_delay(self) -> nat {
        self.max_ms as nat
    }

    /// The number of runs this policy allows.
    pub closed spec fn attempts(self) -> nat {
        self.max_attempts as nat
    }

    /// A policy with waits between `min_ms` (at least 1) and `max_ms` (at
    /// least the first wait), running the operation up to 8 times.
    pub fn new(min_ms: u64, max_ms: u64) -> (r: Self)
        ensures
            r.min_delay() == if min_ms >= 1 { min_ms as nat } else { 1 },
            r.max_delay() == if max_ms >= r.min_delay() { max_ms as nat } else { r.min_delay() },
            r.attempts() == 8,
    {
        let min = if min_ms >= 1 { min_ms } else { 1 };
        let max = if max_ms >= min { max_ms } else { min };
        ExponentialBackoff { min_ms: min, max_ms: max, max_attempts: 8 }
    }

    /// A policy like `new`, running the operation up to `max_attempts`
    /// times (at least once).
    pub fn with_attempts(min_ms: u64, max_ms: u64, max_attempts: usize) -> (r: Self)
        ensures
            r.min_delay() == if min_ms >= 1 { min_ms as nat } else { 1 },
            r.max_delay() == if max_ms >= r.min_delay() { max_ms as nat } else { r.min_delay() },
            r.attempts() == if max_attempts >= 1 { max_attempts as nat } else { 1 },
    {
        let min = if min_ms >= 1 { min_ms } else { 1 };
        let max = if max_ms >= min { max_ms } else { min };
        ExponentialBackoff {
            min_ms: min,
            max_ms: max,
            max_attempts: if max_attempts >= 1 { max_attempts } else { 1 },
        }
    }

    /// The wait that follows `delay_ms`: twice as long (saturating), capped
    /// at the maximum.
    fn next_delay(&self, delay_ms: u64) -> (r: u64)
        requires
            delay_ms <= self.max_delay(),
        ensures
            r == if 2 * delay_ms <= self.max_delay() { 2 * delay_ms } else { self.max_delay() as int },
    {
        let doubled = match delay_ms.checked_mul(2) {
            Some(d) => d,
            None => u64::MAX,
        };
        if doubled <= self.max_ms {
            doubled
        } else {
            self.max_ms
        }
    }
}

impl RetryPolicy for ExponentialBackoff {
    open spec fn attempt_limit(&self) -> nat {
        self.attempts()
    }

    /// No wait before the first run; before run `k + 1`, the wait of the
    /// doubling schedule after failure `k`.
    open spec fn wait_before(&self, k: nat) -> u64 {
        if k == 0 {
            0
        } else {
            backoff_delay(self.min_delay(), self.max_delay(), (k - 1) as nat) as u64
        }
    }

    fn attempt<T, F>(&self, op: F) -> (r: Result<T, String>) where
        F: FnMut(usize, u64) -> Result<T, String>,
    {
        proof {
            use_type_invariant(self);
        }
        let mut operation = op;
        let mut wait: u64 = 0;
        let mut delay_ms = self.min_ms;
        let mut last_error = String::from_str("operation failed");
        let ghost mut outs: Seq<Result<T, String>> = Seq::empty();
        let n = self.max_attempts;
        let mut attempt: usize = 0;
        while attempt < n
            invariant
                n == self.attempts() >= 1,
                1 <= self.min_delay() <= self.max_delay(),
                attempt <= n,
                outs.len() == attempt,
                attempt < n ==> wait == self.wait_before(attempt as nat),
                attempt < n ==> delay_ms == backoff_delay(self.min_delay(), self.max_delay(), attempt as nat),
                delay_ms <= self.max_delay(),
                operation == op,
                forall|k: usize|
                    k < self.attempt_limit() ==> #[trigger] call_requires(
                        operation,
                        (k, self.wait_before(k as nat)),
                    ),
                forall|k: int| 0 <= k < outs.len() ==> #[trigger] outs[k] is Err,
                forall|k: int|
                    0 <= k < outs.len() ==> call_ensures(
                        operation,
                        (k as usize, self.wait_before(k as nat)),
                        #[trigger] outs[k],
                    ),
                attempt > 0 ==> outs.last() == Err::<T, String>(last_error),
            decreases n - attempt,
        {
            assert(call_requires(operation, (attempt, self.wait_before(attempt as nat))));
            let r = operation(attempt, wait);
            proof {
                outs = outs.push(r);
                assert(outs[attempt as int] == r);
            }
            match r {
                Ok(value) => {
                    assert(settles(outs, self.attempt_limit()));
                    return Ok(value);
                },
                Err(err) => {
                    last_error = err;
                    if attempt + 1 < n {
                        proof {
                            lemma_backoff_delay_bounds(self.min_delay(), self.max_delay(), attempt as nat);
                        }
                        wait = delay_ms;
                        delay_ms = self.next_delay(delay_ms);
                    }
                },
            }
            attempt = attempt + 1;
        }
        assert(settles(outs, self.attempt_limit()));
        Err(last_error)
    }
}

/// Every wait of the schedule lies between the first wait and the cap.
pub proof fn lemma_backoff_delay_bounds(min: nat, max: nat, k: nat)
    requires
        min <= max,
    ensures
        min <= backoff_delay(min, max, k) <= max,
    decreases k,
{
    if k > 0 {
        lemma_backoff_delay_bounds(min, max, (k - 1) as nat);
    }
}

/// The waits never shrink: each one is at least the one before.
pub proof fn lemma_backoff_delay_grows(min: nat, max: nat, k: nat)
    requires
        min <= max,
    ensures
        backoff_delay(min, max, k) <= backoff_delay(min, max, k + 1),
{
    lemma_backoff_delay_bounds(min, max, k);
}

/// The waits double from the first one until they reach the cap:
/// the wait after failure `k` is `min(min * 2^k, max)`.
pub proof fn lemma_backoff_delay_doubles(min: nat, max: nat, k: nat)
    requires
        1 <= min <= max,
    ensures
        backoff_delay(min, max, k) == if min * pow2(k) <= max { min * pow2(k) } else { max },
    decreases k,
{
    if k == 0 {
        assert(pow2(0) == 1) by {
            vstd::arithmetic::power2::lemma2_to64();
        }
    } else {
        let j = (k - 1) as nat;
        lemma_backoff_delay_doubles(min, max, j);
        lemma_pow2_unfold(k);
        lemma_pow2_pos(j);
        let p = pow2(j);
        assert(min * pow2(k) == 2 * (min * p)) by (nonlinear_arith)
            requires
                pow2(k) == 2 * p,
        ;
        assert(min * p >= min) by (nonlinear_arith)
            requires
                p >= 1,
                min >= 1,
        ;
    }
}

} // verus!
