use vstd::pervasive::cloned;
use vstd::prelude::*;

verus! {

/// The verdict on one call's outcome.
#[derive(Debug, PartialEq, Eq, Structural, Clone, Copy)]
pub enum Classification {
    Success,
    Failure,
}

/// A strategy that tells a successful call from a failed one.
///
/// It sees the whole result: an `Ok` value may still report a failure (an
/// application status inside a well-formed response), so the error channel
/// alone does not decide.
pub trait Policy<T, E>: Sized {
    /// The results this policy is able to judge.
    spec fn judges(&self, result: &Result<T, E>) -> bool;

    /// What this policy answers for `result`.
    spec fn verdict(&self, result: &Result<T, E>, c: Classification) -> bool;

    fn classify(&self, result: &Result<T, E>) -> (c: Classification)
        requires
            self.judges(result),
        ensures
            self.verdict(result, c),
    ;
}

/// A policy given by a classification function.
pub struct PolicyFn<F> {
    f: F,
}

impl<F: Clone> Clone for PolicyFn<F> {
    /// A policy with a clone of the same function.
    fn clone(&self) -> (r: Self)
        ensures
            cloned(self.function(), r.function()),
    {
        PolicyFn { f: self.f.clone() }
    }
}

impl<F> PolicyFn<F> {
    pub closed spec fn function(&self) -> F {
        self.f
    }
}

/// Wraps `f` as a policy: it classifies every result by calling `f`.
pub fn policy_fn<F, T, E>(f: F) -> (r: PolicyFn<F>) where F: Fn(&Result<T, E>) -> Classification
    ensures
        r.function() == f,
{
    PolicyFn { f }
}

impl<F, T, E> Policy<T, E> for PolicyFn<F> where F: Fn(&Result<T, E>) -> Classification {
    open spec fn judges(&self, result: &Result<T, E>) -> bool {
        call_requires(self.function(), (result,))
    }

    open spec fn verdict(&self, result: &Result<T, E>, c: Classification) -> bool {
        call_ensures(self.function(), (result,), c)
    }

    fn classify(&self, result: &Result<T, E>) -> (c: Classification) {
        (self.f)(result)
    }
}

} // verus!
