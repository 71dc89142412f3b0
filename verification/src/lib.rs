//! A fluent assertion DSL built around a single generic wrapper.
//!
//! An [`Assert`] holds one *actual* value. Assertion methods consume the
//! wrapper and hand it back, so that statements chain:
//!
//! `Assert::that(x).is(y).is_not(z)`
//!
//! Every assertion carries the condition it checks as its precondition, so
//! a verified caller knows statically that the assertion succeeds and that
//! the wrapper comes back holding the same value.

use vstd::prelude::*;

pub mod equals;
pub mod option;
pub mod result;
pub mod string;
pub mod vec;

verus! {

/// The wrapper at the heart of the DSL: it holds exactly one `actual`
/// value. It is created by [`Assert::that`] and consumed by every
/// operation, which either returns it unchanged or returns a new wrapper
/// derived from it.
pub struct Assert<T> {
    actual: T,
}

impl<T> Assert<T> {
    /// The actual value held by the wrapper, as contracts see it.
    pub closed spec fn value(self) -> T {
        self.actual
    }

    /// Create an [`Assert`] for the `actual` value.
    ///
    /// All assertions start with `Assert::that(actual)`.
    pub fn that(actual: T) -> (r: Assert<T>)
        ensures
            r.value() == actual,
    {
        Assert { actual }
    }

    /// Map the actual value using `f` and rewrap the result, in order to
    /// apply further assertions to the mapped value.
    pub fn map<R, F: Fn(T) -> R>(self, f: F) -> (r: Assert<R>)
        requires
            call_requires(f, (self.value(),)),
        ensures
            call_ensures(f, (self.value(),), r.value()),
    {
        Assert::that(f(self.actual))
    }

    /// Assert that the actual value satisfies an arbitrary predicate: the
    /// escape hatch for conditions no named assertion covers. The caller
    /// shows that every value the predicate can return is `true`.
    pub fn satisfies<F: Fn(&T) -> bool>(self, predicate: F) -> (r: Self)
        requires
            call_requires(predicate, (&self.value(),)),
            forall|b: bool| call_ensures(predicate, (&self.value(),), b) ==> b,
        ensures
            r == self,
    {
        let holds = predicate(&self.actual);
        assert(holds);
        self
    }
}

} // verus!
