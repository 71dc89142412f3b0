//! Assertions for a value that is one of two exclusive outcomes,
//! success or failure, each carrying its own payload type.
//!
//! Unlike the optional assertions these do not delegate to
//! [`Assert::is`]: the two payload types differ, so each method inspects
//! the variant directly.

use vstd::prelude::*;
use crate::Assert;

verus! {

impl<T, E> Assert<Result<T, E>> {
    /// Assert that the actual value is `Ok`.
    pub fn is_ok(self) -> (r: Self)
        requires
            self.value() is Ok,
        ensures
            r == self,
    {
        match &self.actual {
            Ok(_) => self,
            Err(_) => unreached(),
        }
    }

    /// Assert that the actual value is `Err`.
    pub fn is_err(self) -> (r: Self)
        requires
            self.value() is Err,
        ensures
            r == self,
    {
        match &self.actual {
            Ok(_) => unreached(),
            Err(_) => self,
        }
    }

    /// Unwrap the success payload into a fresh wrapper. A wrapper holding
    /// `Err` is rejected by the precondition.
    pub fn unwrap(self) -> (r: Assert<T>)
        requires
            self.value() is Ok,
        ensures
            r.value() == self.value()->Ok_0,
    {
        match self.actual {
            Ok(value) => Assert::that(value),
            Err(_) => unreached(),
        }
    }

    /// Unwrap the failure payload into a fresh wrapper. A wrapper holding
    /// `Ok` is rejected by the precondition.
    pub fn unwrap_err(self) -> (r: Assert<E>)
        requires
            self.value() is Err,
        ensures
            r.value() == self.value()->Err_0,
    {
        match self.actual {
            Ok(_) => unreached(),
            Err(error) => Assert::that(error),
        }
    }
}

/// Mutual exclusivity of the fallible assertions: every outcome satisfies
/// exactly one of the preconditions of `is_ok` and `is_err`.
pub proof fn lemma_result_assertions_exclusive<T, E>(actual: Result<T, E>)
    ensures
        (actual is Ok) == !(actual is Err),
{
}

} // verus!
