//! The bounded retry policy around storage calls: a call is attempted up to
//! `max_retry` times with the same argument, the first success is kept,
//! and the last failure is surfaced once the attempts run out.

use vstd::prelude::*;

verus! {

/// The number of attempts a client makes unless told otherwise.
pub const DEFAULT_MAX_RETRY: usize = 3;

/// What follows one attempt of a storage call.
#[derive(Debug)]
pub enum RetryStep<T, E> {
    /// Stop and hand this result to the caller.
    Done(Result<T, E>),
    /// Discard the failure and attempt the call again.
    Retry,
}

/// How many times a storage call is attempted.
#[derive(Clone, Copy, Debug)]
pub struct RetryPolicy {
    pub max_retry: usize,
}

impl Default for RetryPolicy {
    /// The default number of attempts.
    fn default() -> (r: RetryPolicy)
        ensures
            r.max_retry == DEFAULT_MAX_RETRY,
    {
        RetryPolicy { max_retry: DEFAULT_MAX_RETRY }
    }
}

impl RetryPolicy {
    /// A policy of `max_retry` attempts.
    pub fn new(max_retry: usize) -> (r: RetryPolicy)
        ensures
            r.max_retry == max_retry,
    {
        RetryPolicy { max_retry }
    }

    /// The step after attempt number `attempt` (from 0) came back with
    /// `outcome`.
    pub open spec fn step_spec<T, E>(self, attempt: int, outcome: Result<T, E>) -> RetryStep<T, E> {
        match outcome {
            Ok(_) => RetryStep::Done(outcome),
            Err(_) => if attempt + 1 < self.max_retry {
                RetryStep::Retry
            } else {
                RetryStep::Done(outcome)
            },
        }
    }

    /// Decides what follows attempt number `attempt` (from 0): a success
    /// ends the call, a failure is retried unless it was the last attempt.
    pub fn step<T, E>(&self, attempt: usize, outcome: Result<T, E>) -> (r: RetryStep<T, E>)
        requires
            attempt < self.max_retry,
        ensures
            r == self.step_spec(attempt as int, outcome),
    {
        match outcome {
            Ok(v) => RetryStep::Done(Ok(v)),
            Err(e) => {
                if attempt + 1 < self.max_retry {
                    RetryStep::Retry
                } else {
                    RetryStep::Done(Err(e))
                }
            },
        }
    }

    /// The result of a call whose attempt number `i` comes back with
    /// `outcomes[i]`, from attempt `attempt` on; `exhausted` is returned
    /// where no attempt is left to make.
    pub open spec fn run_from<T, E>(
        self,
        outcomes: Seq<Result<T, E>>,
        attempt: int,
        exhausted: T,
    ) -> Result<T, E>
        decreases self.max_retry - attempt,
    {
        if attempt < 0 || attempt >= self.max_retry {
            Ok(exhausted)
        } else {
            match self.step_spec(attempt, outcomes[attempt]) {
                RetryStep::Done(r) => r,
                RetryStep::Retry => self.run_from(outcomes, attempt + 1, exhausted),
            }
        }
    }

    /// Against a store that fails `errors.len()` times in a row and then
    /// succeeds with `value`, a call succeeds with `value` exactly when
    /// there are fewer failures than attempts; otherwise the failure of the
    /// last attempt is surfaced unchanged.
    pub proof fn lemma_retry_bound<T, E>(self, errors: Seq<E>, value: T, exhausted: T)
        requires
            self.max_retry > 0,
        ensures
            ({
                let outcomes = Seq::new(errors.len(), |i: int| Err::<T, E>(errors[i])).push(
                    Ok::<T, E>(value),
                );
                &&& errors.len() < self.max_retry ==> self.run_from(outcomes, 0, exhausted)
                    == Ok::<T, E>(value)
                &&& errors.len() >= self.max_retry ==> self.run_from(outcomes, 0, exhausted)
                    == Err::<T, E>(errors[self.max_retry - 1])
            }),
    {
        let outcomes = Seq::new(errors.len(), |i: int| Err::<T, E>(errors[i])).push(
            Ok::<T, E>(value),
        );
        self.lemma_retry_bound_from(errors, value, exhausted, outcomes, 0);
    }

    proof fn lemma_retry_bound_from<T, E>(
        self,
        errors: Seq<E>,
        value: T,
        exhausted: T,
        outcomes: Seq<Result<T, E>>,
        attempt: int,
    )
        requires
            self.max_retry > 0,
            outcomes == Seq::new(errors.len(), |i: int| Err::<T, E>(errors[i])).push(
                Ok::<T, E>(value),
            ),
            0 <= attempt <= errors.len(),
            attempt < self.max_retry,
        ensures
            errors.len() < self.max_retry ==> self.run_from(outcomes, attempt, exhausted) == Ok::<
                T,
                E,
            >(value),
            errors.len() >= self.max_retry ==> self.run_from(outcomes, attempt, exhausted) == Err::<
                T,
                E,
            >(errors[self.max_retry - 1]),
        decreases self.max_retry - attempt,
    {
        if attempt < errors.len() && attempt + 1 < self.max_retry {
            self.lemma_retry_bound_from(errors, value, exhausted, outcomes, attempt + 1);
        }
    }
}

} // verus!
