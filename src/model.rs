use vstd::prelude::*;

use crate::error::RetryError;

verus! {

/// Every outcome in `outs` is a failure.
pub open spec fn all_failed<R, E>(outs: Seq<Result<R, E>>) -> bool {
    forall|i: int| 0 <= i < outs.len() ==> (#[trigger] outs[i]) is Err
}

/// The errors carried by a sequence of failed outcomes, in the same order.
pub open spec fn errors_of<R, E>(outs: Seq<Result<R, E>>) -> Seq<E> {
    outs.map_values(|o: Result<R, E>| o->Err_0)
}

/// `outs` is the list of outcomes of the attempts made by one call with a
/// budget of `max_attempts`: at most the budget, every attempt but the last
/// failed, and attempts stop before the budget only on a success.
pub open spec fn is_run<R, E>(outs: Seq<Result<R, E>>, max_attempts: nat) -> bool {
    &&& outs.len() <= max_attempts
    &&& forall|i: int| 0 <= i < outs.len() - 1 ==> (#[trigger] outs[i]) is Err
    &&& outs.len() < max_attempts ==> (outs.len() > 0 && outs.last() is Ok)
}

/// What a call returns after the attempts `outs`: the value of a final
/// success, or else every error in attempt order.
pub open spec fn run_result<R, E>(outs: Seq<Result<R, E>>) -> Result<R, Seq<E>> {
    if outs.len() > 0 && outs.last() is Ok {
        Ok(outs.last()->Ok_0)
    } else {
        Err(errors_of(outs))
    }
}

/// A returned result with the aggregate error seen as its list of errors.
pub open spec fn result_view<R, E>(r: Result<R, RetryError<E>>) -> Result<R, Seq<E>> {
    match r {
        Ok(v) => Ok(v),
        Err(e) => Err(e@),
    }
}

/// Every outcome in `outs` is one that `op` may return when called.
pub open spec fn outcomes_of<R, E, F: Fn() -> Result<R, E>>(op: F, outs: Seq<Result<R, E>>) -> bool {
    forall|i: int| 0 <= i < outs.len() ==> op.ensures((), #[trigger] outs[i])
}

/// `r` is what retrying `op` with a budget of `max_attempts` gives: there is
/// a run of attempts of `op` whose result it is.
pub open spec fn retried<R, E, F: Fn() -> Result<R, E>>(
    op: F,
    max_attempts: nat,
    r: Result<R, RetryError<E>>,
) -> bool {
    exists|outs: Seq<Result<R, E>>|
        #![trigger is_run(outs, max_attempts)]
        is_run(outs, max_attempts) && outcomes_of(op, outs) && result_view(r) == run_result(outs)
}

} // verus!
