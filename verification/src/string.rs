//! Assertions for text: prefix, suffix and substring.
//!
//! The three text relations are stated over the string's view, a
//! `Seq<char>`; checking them at run time is handed to the standard
//! library's pattern matching through trusted wrappers.

use vstd::prelude::*;
use crate::Assert;

verus! {

/// `p` is a prefix of `s`.
pub open spec fn is_prefix(s: Seq<char>, p: Seq<char>) -> bool {
    p.is_prefix_of(s)
}

/// `p` is a suffix of `s`.
pub open spec fn is_suffix(s: Seq<char>, p: Seq<char>) -> bool {
    p.is_suffix_of(s)
}

/// `p` occurs contiguously somewhere in `s`.
pub open spec fn is_substring(s: Seq<char>, p: Seq<char>) -> bool {
    exists|i: int| 0 <= i <= s.len() - p.len() && #[trigger] s.subrange(i, i + p.len()) == p
}

/// Relies on `str::starts_with`: true exactly when the pattern matches a
/// prefix of the string. For a `&str` pattern that is the character
/// sequence of the pattern standing at the start of the string's.
#[verifier::external_body]
fn str_starts_with(s: &str, prefix: &str) -> (r: bool)
    ensures
        r == is_prefix(s@, prefix@),
{
    s.starts_with(prefix)
}

/// Relies on `str::ends_with`: true exactly when the pattern matches a
/// suffix of the string.
#[verifier::external_body]
fn str_ends_with(s: &str, suffix: &str) -> (r: bool)
    ensures
        r == is_suffix(s@, suffix@),
{
    s.ends_with(suffix)
}

/// Relies on `str::contains`: true exactly when the pattern matches a
/// sub-slice of the string.
#[verifier::external_body]
fn str_contains(s: &str, pattern: &str) -> (r: bool)
    ensures
        r == is_substring(s@, pattern@),
{
    s.contains(pattern)
}

impl Assert<String> {
    /// Assert that the actual string starts with the given prefix.
    pub fn starts_with(self, prefix: &str) -> (r: Self)
        requires
            is_prefix(self.value()@, prefix@),
        ensures
            r == self,
    {
        let holds = str_starts_with(self.actual.as_str(), prefix);
        assert(holds);
        self
    }

    /// Assert that the actual string ends with the given suffix.
    pub fn ends_with(self, suffix: &str) -> (r: Self)
        requires
            is_suffix(self.value()@, suffix@),
        ensures
            r == self,
    {
        let holds = str_ends_with(self.actual.as_str(), suffix);
        assert(holds);
        self
    }

    /// Assert that the actual string contains the given pattern.
    pub fn contains(self, pattern: &str) -> (r: Self)
        requires
            is_substring(self.value()@, pattern@),
        ensures
            r == self,
    {
        let holds = str_contains(self.actual.as_str(), pattern);
        assert(holds);
        self
    }
}

} // verus!
