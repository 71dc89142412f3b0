//! Assertions for a value that may or may not be present.
//!
//! `is_some` and `is_none` delegate to [`Assert::is`] against a synthetic
//! `Some`/`None` value; `unwrap` hands the present value on in a fresh
//! wrapper.

use vstd::prelude::*;
use vstd::std_specs::cmp::PartialEqSpec;
use crate::Assert;

verus! {

impl<T: PartialEq> Assert<Option<T>> {
    /// Assert that the actual value is `Some` of the `expected` value.
    pub fn is_some(self, expected: T) -> (r: Self)
        requires
            T::obeys_eq_spec(),
            self.value().eq_spec(&Some(expected)),
        ensures
            r == self,
    {
        self.is(Some(expected))
    }

    /// Assert that the actual value is `None`.
    pub fn is_none(self) -> (r: Self)
        requires
            T::obeys_eq_spec(),
            self.value() is None,
        ensures
            r == self,
    {
        self.is(None)
    }
}

impl<T> Assert<Option<T>> {
    /// Unwrap the present value into a fresh wrapper. A wrapper holding
    /// `None` is rejected by the precondition.
    pub fn unwrap(self) -> (r: Assert<T>)
        requires
            self.value() is Some,
        ensures
            r.value() == self.value()->0,
    {
        match self.actual {
            Some(value) => Assert::that(value),
            None => unreached(),
        }
    }
}

/// Mutual exclusivity of the optional assertions: the preconditions of
/// `is_some(x)` — the actual value compares equal to `Some(x)` — and of
/// `is_none()` — the actual value holds `None` — are never both true,
/// whatever `x` is; the first pins the present variant, and of the two
/// variants a value holds exactly one.
pub proof fn lemma_option_assertions_exclusive<T: PartialEq>(actual: Option<T>, x: T)
    ensures
        !(actual.eq_spec(&Some(x)) && actual is None),
        actual.eq_spec(&Some(x)) ==> actual is Some,
        (actual is None) == !(actual is Some),
{
}

/// Unwrap agreement: wrapping `Some(x)` and unwrapping yields a wrapper
/// that holds `x` — the same wrapper `Assert::that(x)` builds. (That a
/// wrapper holding `None` is rejected stands in `unwrap`'s own
/// precondition.)
pub proof fn lemma_unwrap_agreement<T>(
    x: T,
    wrapped: Assert<Option<T>>,
    unwrapped: Assert<T>,
    direct: Assert<T>,
)
    requires
        call_ensures(Assert::<Option<T>>::that, (Some(x),), wrapped),
        call_ensures(Assert::<Option<T>>::unwrap, (wrapped,), unwrapped),
        call_ensures(Assert::<T>::that, (x,), direct),
    ensures
        wrapped.value() is Some,
        unwrapped == direct,
{
}

} // verus!
