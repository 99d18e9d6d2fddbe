//! Retrying with a bounded number of attempts and a delay between them.
//!
//! Nothing here sleeps or calls the operation. The caller makes an attempt and
//! hands its outcome to the driver; the driver says whether to stop, or how
//! long to wait before the next attempt.

use vstd::prelude::*;

verus! {

/// How the delay grows from one retry to the next.
#[derive(Clone, Copy, Debug, PartialEq, Eq, Structural)]
pub enum Backoff {
    /// Every delay is the base delay.
    Fixed,
    /// The first two delays are the base delay, and each later one is the sum
    /// of the two before it.
    Fibonacci,
}

/// A bounded retry policy: the shape of the delays, the base delay in
/// milliseconds, and how often the operation may be tried again after its
/// first attempt.
#[derive(Clone, Copy, Debug, PartialEq, Eq, Structural)]
pub struct RetryPolicy {
    pub shape: Backoff,
    pub base_millis: u64,
    pub retries: u16,
}

/// The delay at position `n` of the Fibonacci shape and the one after it. A
/// sum that a `u64` cannot hold is replaced by the largest `u64`.
pub open spec fn fibonacci_pair(base: u64, n: nat) -> (u64, u64)
    decreases n,
{
    if n == 0 {
        (base, base)
    } else {
        let (current, following) = fibonacci_pair(base, (n - 1) as nat);
        (
            following,
            if current + following <= u64::MAX {
                (current + following) as u64
            } else {
                u64::MAX
            },
        )
    }
}

/// The delay at position `n`, from 0, of a shape with base delay `base`.
pub open spec fn delay_at(shape: Backoff, base: u64, n: nat) -> u64 {
    match shape {
        Backoff::Fixed => base,
        Backoff::Fibonacci => fibonacci_pair(base, n).0,
    }
}

/// The first `count` delays of a shape.
pub open spec fn delays_of(shape: Backoff, base: u64, count: nat) -> Seq<u64> {
    Seq::new(count, |i: int| delay_at(shape, base, i as nat))
}

/// The first `count` delays of `retry::delay::Fixed::from_millis(millis)`, in
/// milliseconds.
///
/// Trusted: each item of that iterator is the duration it was made with.
#[verifier::external_body]
fn fixed_delays(millis: u64, count: u16) -> (r: Vec<u64>)
    ensures
        r@ == delays_of(Backoff::Fixed, millis, count as nat),
{
    retry::delay::Fixed::from_millis(millis).take(count as usize).map(
        |d| d.as_millis() as u64,
    ).collect()
}

/// The first `count` delays of `retry::delay::Fibonacci::from_millis(millis)`,
/// in milliseconds.
///
/// Trusted: that iterator starts with the base delay twice and goes on with
/// the sum of the two delays before, or with the largest `u64` once the sum
/// overflows.
#[verifier::external_body]
fn fibonacci_delays(millis: u64, count: u16) -> (r: Vec<u64>)
    ensures
        r@ == delays_of(Backoff::Fibonacci, millis, count as nat),
{
    retry::delay::Fibonacci::from_millis(millis).take(count as usize).map(
        |d| d.as_millis() as u64,
    ).collect()
}

impl RetryPolicy {
    /// Every delay is `millis`; at most `retries` retries.
    pub fn fixed(millis: u64, retries: u16) -> (r: Self)
        ensures
            r == (RetryPolicy { shape: Backoff::Fixed, base_millis: millis, retries }),
    {
        RetryPolicy { shape: Backoff::Fixed, base_millis: millis, retries }
    }

    /// Growing delays that start at `millis`; at most `retries` retries.
    pub fn fibonacci(millis: u64, retries: u16) -> (r: Self)
        ensures
            r == (RetryPolicy { shape: Backoff::Fibonacci, base_millis: millis, retries }),
    {
        RetryPolicy { shape: Backoff::Fibonacci, base_millis: millis, retries }
    }

    /// The largest number of attempts: the first one and the retries.
    pub open spec fn spec_max_attempts(&self) -> nat {
        (self.retries + 1) as nat
    }

    pub fn max_attempts(&self) -> (r: u64)
        ensures
            r == self.spec_max_attempts(),
    {
        self.retries as u64 + 1
    }

    /// The delays of the policy, one for each retry.
    pub open spec fn spec_delays(&self) -> Seq<u64> {
        delays_of(self.shape, self.base_millis, self.retries as nat)
    }

    /// The delays of the policy in milliseconds, one for each retry, in the
    /// order in which they are waited.
    pub fn delays(&self) -> (r: Vec<u64>)
        ensures
            r@ == self.spec_delays(),
    {
        match self.shape {
            Backoff::Fixed => fixed_delays(self.base_millis, self.retries),
            Backoff::Fibonacci => fibonacci_delays(self.base_millis, self.retries),
        }
    }

    /// A driver at its first attempt.
    pub fn start(&self) -> (r: RetryDriver)
        ensures
            r.delays@ == self.spec_delays(),
            r.used == 0,
    {
        RetryDriver { delays: self.delays(), used: 0 }
    }
}

/// In the Fibonacci shape the delay that follows is never the shorter one.
pub proof fn lemma_fibonacci_pair_ordered(base: u64, n: nat)
    ensures
        fibonacci_pair(base, n).0 <= fibonacci_pair(base, n).1,
        fibonacci_pair(base, n).0 >= base,
    decreases n,
{
    if n > 0 {
        lemma_fibonacci_pair_ordered(base, (n - 1) as nat);
    }
}

/// The delays of a policy never shrink: those of the fixed shape stay as they
/// are, and those of the Fibonacci shape grow or stay.
pub proof fn lemma_delays_never_shrink(policy: RetryPolicy, i: int)
    requires
        0 <= i,
        i + 1 < policy.retries,
    ensures
        policy.spec_delays()[i] <= policy.spec_delays()[i + 1],
        policy.spec_delays()[i] >= policy.base_millis,
        policy.spec_delays().len() == policy.retries,
{
    lemma_fibonacci_pair_ordered(policy.base_millis, i as nat);
    lemma_fibonacci_pair_ordered(policy.base_millis, (i + 1) as nat);
}

/// What one attempt of an operation gave.
#[derive(Debug)]
pub enum Attempt<T, E> {
    /// The operation succeeded.
    Done(T),
    /// The operation failed in a way that may pass: try again.
    Again(E),
    /// The operation failed for good.
    Fatal(E),
}

/// What the driver makes of an attempt.
#[derive(Debug)]
pub enum Verdict<T, E> {
    /// The operation succeeded: stop.
    Success(T),
    /// Wait `after_millis`, then make the next attempt and hand it to `next`.
    Retry { after_millis: u64, error: E, next: RetryDriver },
    /// The operation failed: stop. `exhausted` tells a failure that ended the
    /// retries from one that was final by itself.
    Failure { error: E, exhausted: bool },
}

/// The retries that are left to an operation: the delays of its policy, and
/// how many of them have been used.
#[derive(Debug)]
pub struct RetryDriver {
    pub delays: Vec<u64>,
    pub used: usize,
}

impl RetryDriver {
    /// The verdict on the attempt that this driver waits for.
    pub open spec fn spec_record<T, E>(self, attempt: Attempt<T, E>) -> Verdict<T, E> {
        match attempt {
            Attempt::Done(value) => Verdict::Success(value),
            Attempt::Fatal(error) => Verdict::Failure { error, exhausted: false },
            Attempt::Again(error) => if self.used < self.delays@.len() {
                Verdict::Retry {
                    after_millis: self.delays@[self.used as int],
                    error,
                    next: RetryDriver { delays: self.delays, used: (self.used + 1) as usize },
                }
            } else {
                Verdict::Failure { error, exhausted: true }
            },
        }
    }

    /// Takes the outcome of an attempt. A success or a final failure ends the
    /// operation. A failure that may pass is followed by the next delay of the
    /// policy, and ends the operation once every delay has been used.
    pub fn record<T, E>(self, attempt: Attempt<T, E>) -> (r: Verdict<T, E>)
        ensures
            r == self.spec_record(attempt),
    {
        match attempt {
            Attempt::Done(value) => Verdict::Success(value),
            Attempt::Fatal(error) => Verdict::Failure { error, exhausted: false },
            Attempt::Again(error) => {
                if self.used < self.delays.len() {
                    let after_millis: u64 = self.delays[self.used];
                    let used: usize = self.used + 1;
                    Verdict::Retry {
                        after_millis,
                        error,
                        next: RetryDriver { delays: self.delays, used },
                    }
                } else {
                    Verdict::Failure { error, exhausted: true }
                }
            },
        }
    }
}

/// How an operation under a driver ends, and after how many attempts.
pub struct Conclusion<T, E> {
    pub attempts: nat,
    pub waited: Seq<u64>,
    pub result: Option<Result<T, (E, bool)>>,
}

/// What becomes of an operation whose attempts would give `outcomes`, one
/// after the other: an attempt is made only while the driver asks for one. The
/// result is `None` where the outcomes end before the operation does.
pub open spec fn conclude<T, E>(driver: RetryDriver, outcomes: Seq<Attempt<T, E>>) -> Conclusion<
    T,
    E,
>
    decreases outcomes.len(),
{
    if outcomes.len() == 0 {
        Conclusion { attempts: 0, waited: Seq::empty(), result: None }
    } else {
        match driver.spec_record(outcomes[0]) {
            Verdict::Success(value) => Conclusion {
                attempts: 1,
                waited: Seq::empty(),
                result: Some(Ok(value)),
            },
            Verdict::Failure { error, exhausted } => Conclusion {
                attempts: 1,
                waited: Seq::empty(),
                result: Some(Err((error, exhausted))),
            },
            Verdict::Retry { after_millis, error, next } => {
                let rest = conclude(next, outcomes.drop_first());
                Conclusion {
                    attempts: rest.attempts + 1,
                    waited: seq![after_millis] + rest.waited,
                    result: rest.result,
                }
            },
        }
    }
}

/// Whether the outcome of an attempt asks for another one.
pub open spec fn asks_again<T, E>(a: Attempt<T, E>) -> bool {
    a is Again
}

/// An operation that asks for a retry every time is attempted once for each
/// delay that is left and once more, waits every one of those delays in order,
/// and fails with the error of its last attempt, marked as exhausted.
pub proof fn lemma_retry_exhaustion<T, E>(driver: RetryDriver, outcomes: Seq<Attempt<T, E>>)
    requires
        driver.used <= driver.delays@.len(),
        outcomes.len() > driver.delays@.len() - driver.used,
        forall|i: int| 0 <= i < outcomes.len() ==> asks_again(#[trigger] outcomes[i]),
    ensures
        conclude(driver, outcomes).attempts == driver.delays@.len() - driver.used + 1,
        conclude(driver, outcomes).waited == driver.delays@.skip(driver.used as int),
        conclude(driver, outcomes).result == Some(
            Err::<T, (E, bool)>(
                (outcomes[driver.delays@.len() - driver.used]->Again_0, true),
            ),
        ),
    decreases driver.delays@.len() - driver.used,
{
    assert(asks_again(outcomes[0]));
    assert(driver.delays@.len() == driver.delays.len());
    if driver.used < driver.delays@.len() {
        let next = RetryDriver { delays: driver.delays, used: (driver.used + 1) as usize };
        let rest = outcomes.drop_first();
        assert forall|i: int| 0 <= i < rest.len() implies asks_again(#[trigger] rest[i]) by {
            assert(rest[i] == outcomes[i + 1]);
        }
        lemma_retry_exhaustion(next, rest);
        assert(seq![driver.delays@[driver.used as int]] + driver.delays@.skip(driver.used + 1)
            =~= driver.delays@.skip(driver.used as int));
        assert(rest[driver.delays@.len() - driver.used - 1] == outcomes[driver.delays@.len()
            - driver.used]);
    } else {
        assert(driver.delays@.skip(driver.used as int) =~= Seq::<u64>::empty());
    }
}

/// Under a policy, an operation that asks for a retry every time is attempted
/// exactly as often as the policy allows.
pub proof fn lemma_policy_exhaustion<T, E>(
    policy: RetryPolicy,
    driver: RetryDriver,
    outcomes: Seq<Attempt<T, E>>,
)
    requires
        driver.delays@ == policy.spec_delays(),
        driver.used == 0,
        outcomes.len() >= policy.spec_max_attempts(),
        forall|i: int| 0 <= i < outcomes.len() ==> asks_again(#[trigger] outcomes[i]),
    ensures
        conclude(driver, outcomes).attempts == policy.spec_max_attempts(),
        conclude(driver, outcomes).waited == policy.spec_delays(),
        conclude(driver, outcomes).result == Some(
            Err::<T, (E, bool)>((outcomes[policy.retries as int]->Again_0, true)),
        ),
{
    lemma_retry_exhaustion(driver, outcomes);
    assert(driver.delays@.skip(0) =~= driver.delays@);
}

/// An operation ends at its first attempt that does not ask for a retry: no
/// attempt is made after it.
pub proof fn lemma_stops_at_first_conclusive<T, E>(
    driver: RetryDriver,
    outcomes: Seq<Attempt<T, E>>,
    k: int,
)
    requires
        driver.used <= driver.delays@.len(),
        0 <= k < outcomes.len(),
        k <= driver.delays@.len() - driver.used,
        forall|i: int| 0 <= i < k ==> asks_again(#[trigger] outcomes[i]),
        !asks_again(outcomes[k]),
    ensures
        conclude(driver, outcomes).attempts == k + 1,
        conclude(driver, outcomes).result == Some(
            match outcomes[k] {
                Attempt::Done(value) => Ok::<T, (E, bool)>(value),
                Attempt::Fatal(error) => Err((error, false)),
                Attempt::Again(error) => Err((error, true)),
            },
        ),
    decreases k,
{
    assert(driver.delays@.len() == driver.delays.len());
    if k > 0 {
        assert(asks_again(outcomes[0]));
        let next = RetryDriver { delays: driver.delays, used: (driver.used + 1) as usize };
        let rest = outcomes.drop_first();
        assert forall|i: int| 0 <= i < k - 1 implies asks_again(#[trigger] rest[i]) by {
            assert(rest[i] == outcomes[i + 1]);
        }
        assert(rest[k - 1] == outcomes[k]);
        lemma_stops_at_first_conclusive(next, rest, k - 1);
    }
}

} // verus!
