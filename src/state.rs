use vstd::prelude::*;

use crate::error::RetryError;

verus! {

/// The progress of one retried call: its attempt budget and the errors of
/// the attempts that failed so far.
pub struct RetryState<E> {
    max_attempts: usize,
    errors: Vec<E>,
}

/// What the driver of a retried call does next.
pub enum Step<R, E> {
    /// Make one more attempt, then hand its outcome to `record`.
    Attempt(RetryState<E>),
    /// The last attempt failed: wait the configured delay, if any, then call
    /// `resume`.
    Failed(RetryState<E>),
    /// An attempt succeeded with this value: the call returns it.
    Succeeded(R),
    /// The budget is spent: the call returns this error.
    Exhausted(RetryError<E>),
}

impl<E> RetryState<E> {
    /// The attempt budget of the call.
    pub closed spec fn max_attempts(&self) -> nat {
        self.max_attempts as nat
    }

    /// The errors of the failed attempts so far, first attempt first.
    pub closed spec fn failures(&self) -> Seq<E> {
        self.errors@
    }

    /// Begins a call with a budget of `max_attempts`. With no budget the call
    /// is over at once, with no error recorded.
    pub fn start<R>(max_attempts: usize) -> (r: Step<R, E>)
        ensures
            max_attempts == 0 ==> r is Exhausted && r->Exhausted_0@ == Seq::<E>::empty(),
            max_attempts > 0 ==> r is Attempt && r->Attempt_0.max_attempts() == max_attempts
                && r->Attempt_0.failures() == Seq::<E>::empty(),
    {
        let errors: Vec<E> = Vec::with_capacity(max_attempts);
        let s = RetryState { max_attempts, errors };
        s.resume()
    }

    /// Takes in the outcome of the attempt that was just made. A success ends
    /// the call with its value; a failure is appended to the errors.
    pub fn record<R>(self, outcome: Result<R, E>) -> (r: Step<R, E>)
        ensures
            match outcome {
                Ok(v) => r == Step::<R, E>::Succeeded(v),
                Err(e) => r is Failed && r->Failed_0.max_attempts() == self.max_attempts()
                    && r->Failed_0.failures() == self.failures().push(e),
            },
    {
        match outcome {
            Ok(v) => Step::Succeeded(v),
            Err(e) => {
                let mut s = self;
                s.errors.push(e);
                Step::Failed(s)
            },
        }
    }

    /// Goes on after a failure: another attempt while the budget lasts, else
    /// the aggregate of all errors so far.
    pub fn resume<R>(self) -> (r: Step<R, E>)
        ensures
            self.failures().len() < self.max_attempts() ==> r == Step::<R, E>::Attempt(self),
            self.failures().len() >= self.max_attempts() ==> r is Exhausted
                && r->Exhausted_0@ == self.failures(),
    {
        if self.errors.len() < self.max_attempts {
            Step::Attempt(self)
        } else {
            Step::Exhausted(RetryError::new(self.errors))
        }
    }
}

} // verus!
