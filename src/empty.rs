//! The emptiness matcher, over any container that can tell its length.

use vstd::prelude::*;

use crate::matcher::{debug_text, failure_text, render_failure, Join, Matcher};

verus! {

/// A container that can tell whether it holds anything.
pub trait HasLength {
    /// How many items (characters, for text) the container holds.
    spec fn length(&self) -> nat;

    fn length_is_zero(&self) -> (r: bool)
        ensures
            r == (self.length() == 0),
    ;
}

impl<T> HasLength for Vec<T> {
    open spec fn length(&self) -> nat {
        self@.len()
    }

    fn length_is_zero(&self) -> (r: bool) {
        self.len() == 0
    }
}

impl HasLength for String {
    open spec fn length(&self) -> nat {
        self@.len()
    }

    fn length_is_zero(&self) -> (r: bool) {
        self.as_str().is_empty()
    }
}

impl<'a> HasLength for &'a str {
    open spec fn length(&self) -> nat {
        (*self)@.len()
    }

    fn length_is_zero(&self) -> (r: bool) {
        (*self).is_empty()
    }
}

/// Matches a container of length zero.
pub struct BeEmpty;

/// A matcher of empty containers.
pub fn be_empty() -> (r: BeEmpty) {
    BeEmpty
}

impl<A: HasLength + std::fmt::Debug> Matcher<A, A> for BeEmpty {
    open spec fn obeys_matches_spec() -> bool {
        true
    }

    open spec fn matches_spec(&self, actual: &A) -> bool {
        actual.length() == 0
    }

    open spec fn describes_failure(&self, join: Join, actual: &A, message: Seq<char>) -> bool {
        exists|a: Seq<char>| message == failure_text(join.text(), "empty"@, a)
    }

    fn matches(&self, actual: &A) -> (r: bool) {
        actual.length_is_zero()
    }

    fn failure_message(&self, join: Join, actual: &A) -> (r: String) {
        let a = debug_text(actual);
        render_failure(join, "empty", a.as_str())
    }
}

/// The emptiness matcher accepts a container exactly when its length is zero.
pub proof fn lemma_empty_iff_length_zero<A: HasLength + std::fmt::Debug>(m: BeEmpty, actual: A)
    ensures
        <BeEmpty as Matcher<A, A>>::matches_spec(&m, &actual) <==> actual.length() == 0,
{
}

} // verus!
