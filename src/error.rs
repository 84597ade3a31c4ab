use vstd::prelude::*;

verus! {

/// What a retried operation returns when every attempt failed: the error of
/// each attempt, in the order the attempts were made.
#[derive(Debug)]
pub struct RetryError<E> {
    pub retries: Vec<E>,
}

impl<E> RetryError<E> {
    /// The errors held, first attempt first.
    pub open spec fn view(&self) -> Seq<E> {
        self.retries@
    }

    /// An aggregate error over the given per-attempt errors.
    pub fn new(retries: Vec<E>) -> (r: Self)
        ensures
            r@ == retries@,
    {
        RetryError { retries }
    }

    /// Number of failed attempts recorded.
    pub fn len(&self) -> (n: usize)
        ensures
            n == self@.len(),
    {
        self.retries.len()
    }
}

} // verus!
