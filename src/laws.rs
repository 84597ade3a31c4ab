use vstd::prelude::*;

use crate::error::RetryError;
use crate::model::{all_failed, errors_of, is_run, outcomes_of, result_view, retried, run_result};

verus! {

/// Bounded attempts: when every outcome the operation can give is a failure,
/// each run of attempts uses the whole budget, and the call returns an
/// aggregate error with exactly `max_attempts` errors.
pub proof fn lemma_always_failing_spends_budget<R, E, F: Fn() -> Result<R, E>>(
    op: F,
    max_attempts: nat,
    r: Result<R, RetryError<E>>,
)
    requires
        retried(op, max_attempts, r),
        forall|o: Result<R, E>| op.ensures((), o) ==> o is Err,
    ensures
        r is Err,
        r->Err_0@.len() == max_attempts,
        forall|outs: Seq<Result<R, E>>|
            #![trigger is_run(outs, max_attempts)]
            is_run(outs, max_attempts) && outcomes_of(op, outs) ==> outs.len() == max_attempts,
{
    assert forall|outs: Seq<Result<R, E>>|
        #![trigger is_run(outs, max_attempts)]
        is_run(outs, max_attempts) && outcomes_of(op, outs) implies outs.len() == max_attempts by {
        if outs.len() < max_attempts {
            assert(op.ensures((), outs[outs.len() - 1]));
        }
    }
    let outs = choose|outs: Seq<Result<R, E>>|
        #![trigger is_run(outs, max_attempts)]
        is_run(outs, max_attempts) && outcomes_of(op, outs) && result_view(r) == run_result(outs);
    if outs.len() > 0 {
        assert(op.ensures((), outs[outs.len() - 1]));
    }
}

/// Early exit: when the attempts fail up to attempt `k - 1` and attempt `k`
/// succeeds, with `k` within the budget, exactly `k` attempts are made and the
/// call returns the value of attempt `k`. Here `plan[i]` is the outcome of
/// attempt `i + 1`.
pub proof fn lemma_first_success_ends_run<R, E>(
    outs: Seq<Result<R, E>>,
    plan: Seq<Result<R, E>>,
    max_attempts: nat,
    k: nat,
)
    requires
        1 <= k <= max_attempts,
        plan.len() == k,
        forall|i: int| 0 <= i < k - 1 ==> (#[trigger] plan[i]) is Err,
        plan[k - 1] is Ok,
        is_run(outs, max_attempts),
        forall|i: int| 0 <= i < outs.len() && i < k ==> outs[i] == plan[i],
    ensures
        outs.len() == k,
        run_result(outs) == Ok::<R, Seq<E>>(plan[k - 1]->Ok_0),
{
    if outs.len() < k {
        assert(outs[outs.len() - 1] == plan[outs.len() - 1]);
    } else if outs.len() > k {
        assert(outs[k - 1] == plan[k - 1]);
    }
    assert(outs[k - 1] == plan[k - 1]);
}

/// Order preservation: an aggregate error holds one error per attempt made,
/// and its `i`-th error is the failure of attempt `i + 1`.
pub proof fn lemma_errors_in_attempt_order<R, E, F: Fn() -> Result<R, E>>(
    op: F,
    max_attempts: nat,
    r: Result<R, RetryError<E>>,
)
    requires
        retried(op, max_attempts, r),
        r is Err,
    ensures
        exists|outs: Seq<Result<R, E>>|
            #![trigger is_run(outs, max_attempts)]
            {
                &&& is_run(outs, max_attempts)
                &&& outcomes_of(op, outs)
                &&& outs.len() == max_attempts
                &&& outs.len() == r->Err_0@.len()
                &&& forall|i: int|
                    0 <= i < outs.len() ==> outs[i] == Err::<R, E>(#[trigger] r->Err_0@[i])
            },
{
    let outs = choose|outs: Seq<Result<R, E>>|
        #![trigger is_run(outs, max_attempts)]
        is_run(outs, max_attempts) && outcomes_of(op, outs) && result_view(r) == run_result(outs);
    assert(all_failed(outs));
    assert forall|i: int| 0 <= i < outs.len() implies outs[i] == Err::<R, E>(#[trigger] r->Err_0@[i]) by {
        assert(errors_of(outs)[i] == outs[i]->Err_0);
    }
}

/// No budget: with `max_attempts` zero no attempt is made and the call
/// returns an aggregate error with no errors.
pub proof fn lemma_no_budget_no_attempt<R, E, F: Fn() -> Result<R, E>>(
    op: F,
    r: Result<R, RetryError<E>>,
)
    requires
        retried(op, 0, r),
    ensures
        r is Err,
        r->Err_0@ == Seq::<E>::empty(),
        forall|outs: Seq<Result<R, E>>| #![trigger is_run(outs, 0)] is_run(outs, 0) ==> outs.len() == 0,
{
    let outs = choose|outs: Seq<Result<R, E>>|
        #![trigger is_run(outs, 0)]
        is_run(outs, 0) && outcomes_of(op, outs) && result_view(r) == run_result(outs);
    assert(errors_of(outs) =~= Seq::<E>::empty());
}

} // verus!
