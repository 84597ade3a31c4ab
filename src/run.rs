use vstd::prelude::*;

use crate::error::RetryError;
use crate::model::{all_failed, errors_of, is_run, outcomes_of, retried, run_result};
use crate::state::{RetryState, Step};

verus! {

/// How `step` stands to the outcomes `outs` of the attempts made so far.
spec fn tracks<R, E>(step: Step<R, E>, outs: Seq<Result<R, E>>, max_attempts: nat) -> bool {
    match step {
        Step::Attempt(s) => {
            &&& s.max_attempts() == max_attempts
            &&& s.failures() == errors_of(outs)
            &&& all_failed(outs)
            &&& outs.len() < max_attempts
        },
        Step::Failed(s) => {
            &&& s.max_attempts() == max_attempts
            &&& s.failures() == errors_of(outs)
            &&& all_failed(outs)
            &&& 0 < outs.len() <= max_attempts
        },
        Step::Succeeded(v) => is_run(outs, max_attempts) && run_result(outs) == Ok::<R, Seq<E>>(v),
        Step::Exhausted(e) => is_run(outs, max_attempts) && run_result(outs) == Err::<R, Seq<E>>(e@),
    }
}

/// Steps left before the call ends, after `done` attempts.
spec fn steps_left<R, E>(step: Step<R, E>, max_attempts: nat, done: nat) -> int {
    match step {
        Step::Attempt(_) => 2 * (max_attempts - done),
        Step::Failed(_) => 2 * (max_attempts - done) + 1,
        _ => 0,
    }
}

/// Calls `op` until it succeeds or `max_attempts` attempts have failed, and
/// calls `wait` once after each failed attempt. Returns the first success, or
/// every error in attempt order.
pub fn retry_with_wait<R, E, F: Fn() -> Result<R, E>, W: Fn()>(
    max_attempts: usize,
    op: F,
    wait: W,
) -> (r: Result<R, RetryError<E>>)
    requires
        op.requires(()),
        wait.requires(()),
    ensures
        retried(op, max_attempts as nat, r),
{
    let ghost mut outs: Seq<Result<R, E>> = Seq::empty();
    let mut step: Step<R, E> = RetryState::start(max_attempts);
    proof {
        assert(errors_of(outs) =~= Seq::<E>::empty());
    }
    loop
        invariant
            op.requires(()),
            wait.requires(()),
            tracks(step, outs, max_attempts as nat),
            outcomes_of(op, outs),
        decreases steps_left(step, max_attempts as nat, outs.len()),
    {
        match step {
            Step::Attempt(s) => {
                let outcome = op();
                proof {
                    let prev = outs;
                    outs = outs.push(outcome);
                    assert(outs.drop_last() == prev);
                    assert(errors_of(prev) == errors_of(outs).drop_last());
                    if outcome is Err {
                        assert(errors_of(outs) =~= errors_of(prev).push(outcome->Err_0));
                    } else {
                        assert(outs.last() == outcome);
                    }
                }
                step = s.record(outcome);
            },
            Step::Failed(s) => {
                wait();
                step = s.resume();
            },
            Step::Succeeded(v) => {
                return Ok(v);
            },
            Step::Exhausted(e) => {
                return Err(e);
            },
        }
    }
}

/// Calls `op` until it succeeds or `max_attempts` attempts have failed, with
/// no pause between attempts. Returns the first success, or every error in
/// attempt order.
pub fn retry<R, E, F: Fn() -> Result<R, E>>(max_attempts: usize, op: F) -> (r: Result<R, RetryError<E>>)
    requires
        op.requires(()),
    ensures
        retried(op, max_attempts as nat, r),
{
    retry_with_wait(max_attempts, op, || {})
}

} // verus!
