use vstd::prelude::*;

use crate::errors::{ErrorKind, ScrapeError};

verus! {

/// Implemented by the context a retried action runs against: the executor
/// asks it to block for the fixed delay between attempts.
pub trait Sleeper {
    /// Block the calling thread of control for the given number of seconds.
    fn pause(&mut self, secs: u64);
}

/// A fallible action, retried by [`retry`]. `Ctx` is the external context the
/// action works against (a driver, in this library); `T` is the success value.
pub trait RetryAction<Ctx, T> {
    /// Make one attempt at the action.
    fn attempt(&mut self, ctx: &mut Ctx) -> Result<T, ScrapeError>;
}

/// The record of one run of the retry executor: the final result, how many
/// attempts were made, how many full-delay sleeps were performed, the
/// success of each attempt in order, and the error each failed attempt
/// returned, in order.
pub struct RetryOutcome<T> {
    pub result: Result<T, ScrapeError>,
    pub attempts: u8,
    pub sleeps: u8,
    pub outcomes: Vec<bool>,
    pub errors: Vec<ScrapeError>,
}

/// What every run of [`retry`] guarantees, over its recorded outcome.
///
/// Every attempt but the last failed (the executor stops at the first
/// success); the run succeeded exactly when the last recorded attempt did;
/// a failed run with a positive budget used the whole budget; a zero budget
/// makes no attempt and fails at once; each attempt after the first was
/// preceded by exactly one sleep; and a failed run with a positive budget
/// returned exactly the error its final attempt recorded.
pub open spec fn retry_post<T>(out: RetryOutcome<T>, retries: u8) -> bool {
    &&& out.attempts as nat == out.outcomes@.len()
    &&& out.attempts <= retries
    &&& out.sleeps as int == if out.attempts == 0 { 0int } else { out.attempts - 1 }
    &&& forall|i: int| 0 <= i < out.outcomes@.len() - 1 ==> !out.outcomes@[i]
    &&& (out.result is Ok <==> (out.outcomes@.len() > 0 && out.outcomes@.last()))
    &&& ((out.result is Err && retries > 0) ==> out.attempts == retries)
    &&& (retries == 0 ==> out.attempts == 0 && (out.result matches Err(e)
        && e.kind == ErrorKind::RetryExhausted))
    &&& out.errors@.len() == (if out.result is Ok {
        out.outcomes@.len() - 1
    } else {
        out.outcomes@.len() as int
    })
    &&& (out.result matches Err(e) ==> (retries > 0 ==> e == out.errors@.last()))
}

/// Run `task` against `ctx` up to `retries` times, sleeping the full `delay`
/// (in seconds, fixed, never growing) between attempts.
///
/// A zero budget makes no attempt and fails at once with `RetryExhausted`;
/// otherwise the error of a failed run is the one the final attempt
/// returned, propagated unmodified and recorded in the outcome.
pub fn retry<Ctx: Sleeper, T, A: RetryAction<Ctx, T>>(
    ctx: &mut Ctx,
    task: &mut A,
    retries: u8,
    delay: u64,
) -> (out: RetryOutcome<T>)
    ensures
        retry_post(out, retries),
{
    let mut outcomes: Vec<bool> = Vec::new();
    let mut errors: Vec<ScrapeError> = Vec::new();
    let mut attempts: u8 = 0;
    let mut sleeps: u8 = 0;
    if retries == 0 {
        let e = ScrapeError::new(ErrorKind::RetryExhausted, "retry attempts exhausted".to_owned());
        return RetryOutcome { result: Err(e), attempts, sleeps, outcomes, errors };
    }
    loop
        invariant
            attempts < retries,
            attempts as nat == outcomes@.len(),
            errors@.len() == outcomes@.len(),
            sleeps == attempts,
            forall|i: int| 0 <= i < outcomes@.len() ==> !outcomes@[i],
        decreases retries - attempts,
    {
        match task.attempt(ctx) {
            Ok(v) => {
                outcomes.push(true);
                attempts = attempts + 1;
                return RetryOutcome { result: Ok(v), attempts, sleeps, outcomes, errors };
            },
            Err(e) => {
                let recorded = ScrapeError::new(e.kind, e.message.clone());
                errors.push(recorded);
                outcomes.push(false);
                attempts = attempts + 1;
                if attempts < retries {
                    ctx.pause(delay);
                    sleeps = sleeps + 1;
                } else {
                    proof {
                        assert(errors@.last() == e);
                    }
                    return RetryOutcome { result: Err(e), attempts, sleeps, outcomes, errors };
                }
            },
        }
    }
}

/// Law: under any policy with a positive attempt budget, an action that
/// failed on every invocation was invoked exactly `retries` times, was
/// preceded by exactly `retries - 1` full-delay sleeps, and the run ended
/// in failure, returning exactly the error the final invocation recorded.
pub proof fn lemma_retry_exhaustion<T>(out: RetryOutcome<T>, retries: u8)
    requires
        retry_post(out, retries),
        retries > 0,
        forall|i: int| 0 <= i < out.outcomes@.len() ==> !out.outcomes@[i],
    ensures
        out.result is Err,
        out.attempts == retries,
        out.sleeps == retries - 1,
        out.result matches Err(e) && e == out.errors@.last(),
{
    if out.result is Ok {
        assert(out.outcomes@.last() == out.outcomes@[out.outcomes@.len() - 1]);
    }
}

/// Law: a run whose `k`-th invocation succeeded (and which therefore made
/// exactly `k` attempts) returned success after exactly `k` invocations and
/// exactly `k - 1` sleeps.
pub proof fn lemma_retry_success_at_k<T>(out: RetryOutcome<T>, retries: u8, k: u8)
    requires
        retry_post(out, retries),
        out.outcomes@.len() == k,
        k > 0,
        out.outcomes@[k - 1],
    ensures
        out.result is Ok,
        out.attempts == k,
        out.sleeps == k - 1,
{
    assert(out.outcomes@.last() == out.outcomes@[k - 1]);
}

} // verus!
