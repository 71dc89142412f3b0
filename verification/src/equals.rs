//! Equality and ordering assertions.
//!
//! These are available whenever the actual value can be compared against
//! an expected value of a possibly different type: equality through
//! `PartialEq` and ordering through `PartialOrd`. The comparison's
//! meaning in contracts is the one `vstd` gives those traits, so each
//! assertion asks that the type's comparison obey that meaning.

use vstd::prelude::*;
use vstd::std_specs::cmp::{PartialEqSpec, PartialOrdSpec};
use crate::Assert;
use core::cmp::Ordering;

verus! {

impl<T> Assert<T> {
    /// Assert that the actual value is equal to the `expected` value.
    pub fn is<R>(self, expected: R) -> (r: Self) where T: PartialEq<R>
        requires
            T::obeys_eq_spec(),
            self.value().eq_spec(&expected),
        ensures
            r == self,
    {
        let holds = self.actual == expected;
        assert(holds);
        self
    }

    /// Assert that the actual value is not equal to the `other` value.
    pub fn is_not<R>(self, other: R) -> (r: Self) where T: PartialEq<R>
        requires
            T::obeys_eq_spec(),
            !self.value().eq_spec(&other),
        ensures
            r == self,
    {
        let differs = self.actual != other;
        assert(differs);
        self
    }

    /// Assert that the actual value is strictly greater than `other`.
    pub fn is_gt<R>(self, other: R) -> (r: Self) where T: PartialOrd<R>
        requires
            T::obeys_partial_cmp_spec(),
            self.value().partial_cmp_spec(&other) == Some(Ordering::Greater),
        ensures
            r == self,
    {
        let holds = self.actual > other;
        assert(holds);
        self
    }

    /// Assert that the actual value is greater than or equal to `other`.
    pub fn is_ge<R>(self, other: R) -> (r: Self) where T: PartialOrd<R>
        requires
            T::obeys_partial_cmp_spec(),
            self.value().partial_cmp_spec(&other) matches Some(
                Ordering::Greater
                | Ordering::Equal,
            ),
        ensures
            r == self,
    {
        let holds = self.actual >= other;
        assert(holds);
        self
    }

    /// Assert that the actual value is strictly less than `other`.
    pub fn is_lt<R>(self, other: R) -> (r: Self) where T: PartialOrd<R>
        requires
            T::obeys_partial_cmp_spec(),
            self.value().partial_cmp_spec(&other) == Some(Ordering::Less),
        ensures
            r == self,
    {
        let holds = self.actual < other;
        assert(holds);
        self
    }

    /// Assert that the actual value is less than or equal to `other`.
    pub fn is_le<R>(self, other: R) -> (r: Self) where T: PartialOrd<R>
        requires
            T::obeys_partial_cmp_spec(),
            self.value().partial_cmp_spec(&other) matches Some(
                Ordering::Less
                | Ordering::Equal,
            ),
        ensures
            r == self,
    {
        let holds = self.actual <= other;
        assert(holds);
        self
    }
}

/// Chaining identity: any wrapper a successful `is` call returns is the
/// very wrapper it was called on, holding the same actual value, so
/// later assertions see the value untouched.
pub proof fn lemma_is_chaining_identity<T: PartialEq<R>, R>(
    a: Assert<T>,
    expected: R,
    r: Assert<T>,
)
    requires
        call_ensures(Assert::<T>::is::<R>, (a, expected), r),
    ensures
        r == a,
        r.value() == a.value(),
{
}

/// Idempotence of the success path: a wrapper accepted by `is(expected)`
/// comes back satisfying the same precondition, so repeating the same
/// successful assertion never fails.
pub proof fn lemma_is_idempotent<T: PartialEq<R>, R>(a: Assert<T>, expected: R, r: Assert<T>)
    requires
        T::obeys_eq_spec(),
        a.value().eq_spec(&expected),
        call_ensures(Assert::<T>::is::<R>, (a, expected), r),
    ensures
        r.value().eq_spec(&expected),
{
}

} // verus!

