//! Assertions for an ordered, indexable collection.
//!
//! `get` is deliberately destructive: retrieving a present element removes
//! it from the vector by swapping the last element into its place, which
//! keeps the operation O(1) and avoids requiring the element type to be
//! cloneable, at the price of the remaining order.

use vstd::prelude::*;
use vstd::std_specs::cmp::PartialEqSpec;
use crate::Assert;

verus! {

impl<T: PartialEq> Assert<Vec<T>> {
    /// Assert that some element of the actual vector is equal to the
    /// `expected` value.
    pub fn contains(self, expected: T) -> (r: Self)
        requires
            T::obeys_eq_spec(),
            exists|i: int|
                0 <= i < self.value()@.len() && self.value()@[i].eq_spec(&expected),
        ensures
            r == self,
    {
        let n: usize = self.actual.len();
        let mut i: usize = 0;
        while i < n
            invariant
                T::obeys_eq_spec(),
                n == self.value()@.len(),
                i <= n,
                exists|j: int|
                    0 <= j < self.value()@.len() && self.value()@[j].eq_spec(&expected),
                forall|j: int| 0 <= j < i ==> !self.value()@[j].eq_spec(&expected),
            decreases n - i,
        {
            if self.actual[i] == expected {
                return self;
            }
            i += 1;
        }
        proof {
            assert(false);
        }
        unreached()
    }
}

impl<T> Assert<Vec<T>> {
    /// Wrap the element at `index`: `Some` of it if `index` is within
    /// bounds, `None` otherwise. A present element is removed from the
    /// vector by swapping the last element into its place, so the
    /// remaining vector is one element shorter and its order is not
    /// preserved.
    pub fn get(&mut self, index: usize) -> (r: Assert<Option<T>>)
        ensures
            index < old(self).value()@.len() ==> {
                &&& r.value() == Some(old(self).value()@[index as int])
                &&& final(self).value()@ == old(self).value()@.update(
                    index as int,
                    old(self).value()@.last(),
                ).drop_last()
                &&& final(self).value()@.len() == old(self).value()@.len() - 1
            },
            index >= old(self).value()@.len() ==> {
                &&& r.value() is None
                &&& *final(self) == *old(self)
            },
    {
        if index < self.actual.len() {
            let element = self.actual.swap_remove(index);
            Assert::that(Some(element))
        } else {
            Assert::that(None)
        }
    }

    /// Assert that the actual vector is empty.
    pub fn is_empty(self) -> (r: Self)
        requires
            self.value()@.len() == 0,
        ensures
            r == self,
    {
        let empty = self.actual.len() == 0;
        assert(empty);
        self
    }

    /// Assert that the actual vector has exactly the `expected` length.
    pub fn has_length(self, expected: usize) -> (r: Self)
        requires
            self.value()@.len() == expected,
        ensures
            r == self,
    {
        let matches_len = self.actual.len() == expected;
        assert(matches_len);
        self
    }
}

/// Length exactness: a vector of exactly `n` elements satisfies
/// `has_length(n)`'s precondition and no other expected length's.
pub proof fn lemma_has_length_exact<T>(a: Assert<Vec<T>>, n: usize, m: usize)
    requires
        a.value()@.len() == n,
    ensures
        m != n ==> !(a.value()@.len() == m),
{
}

} // verus!
