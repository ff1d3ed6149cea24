//! The equality matcher.

use vstd::prelude::*;
use vstd::laws_eq::obeys_concrete_eq;
use vstd::std_specs::cmp::PartialEqSpec;

use crate::matcher::{debug_text, failure_text, labelled_text, render_failure, render_predicate, Join, Matcher};

verus! {

/// Matches a value equal to the expected one.
pub struct BeEqualTo<E> {
    expected: E,
}

impl<E> BeEqualTo<E> {
    /// The value a match must equal.
    pub closed spec fn expected_value(&self) -> E {
        self.expected
    }
}

/// A matcher of values equal to `expected`.
pub fn be_equal_to<E>(expected: E) -> (r: BeEqualTo<E>)
    ensures
        r.expected_value() == expected,
{
    BeEqualTo { expected: expected }
}

impl<A: PartialEq<E> + std::fmt::Debug, E: std::fmt::Debug> Matcher<A, E> for BeEqualTo<E> {
    open spec fn obeys_matches_spec() -> bool {
        A::obeys_eq_spec()
    }

    open spec fn matches_spec(&self, actual: &A) -> bool {
        actual.eq_spec(&self.expected_value())
    }

    open spec fn describes_failure(&self, join: Join, actual: &A, message: Seq<char>) -> bool {
        exists|e: Seq<char>, a: Seq<char>|
            message == failure_text(join.text(), labelled_text("equal to"@, e), a)
    }

    fn matches(&self, actual: &A) -> (r: bool) {
        *actual == self.expected
    }

    fn failure_message(&self, join: Join, actual: &A) -> (r: String) {
        let e = debug_text(&self.expected);
        let a = debug_text(actual);
        let predicate = render_predicate("equal to", e.as_str());
        render_failure(join, predicate.as_str(), a.as_str())
    }
}

/// An equality matcher accepts exactly the values that `==` finds equal to
/// its expected value.
pub proof fn lemma_equal_to_agrees_with_eq<A: PartialEq<E> + std::fmt::Debug, E: std::fmt::Debug>(
    m: BeEqualTo<E>,
    expected: E,
    actual: A,
)
    requires
        m.expected_value() == expected,
    ensures
        <BeEqualTo<E> as Matcher<A, E>>::matches_spec(&m, &actual) == actual.eq_spec(&expected),
{
}

/// For a type whose `==` is identity, an equality matcher accepts the
/// expected value and nothing else.
pub proof fn lemma_equal_to_accepts_only_expected<E: PartialEq + std::fmt::Debug>(
    m: BeEqualTo<E>,
    expected: E,
    actual: E,
)
    requires
        m.expected_value() == expected,
        obeys_concrete_eq::<E>(),
    ensures
        <BeEqualTo<E> as Matcher<E, E>>::matches_spec(&m, &actual) <==> actual == expected,
{
    reveal(obeys_concrete_eq);
}

} // verus!
