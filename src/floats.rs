//! The closeness matcher's value: an expected number and a tolerance.

use vstd::prelude::*;

use crate::matcher::{debug_text, failure_text, labelled_text, push_text, render_failure, render_predicate, Join};

verus! {

/// Matches a number within a tolerance of the expected one.
pub struct CloseTo<E> {
    expected: E,
    delta: E,
}

/// `"close to <<expected>> ±<delta>"`.
pub open spec fn close_to_text(expected: Seq<char>, delta: Seq<char>) -> Seq<char> {
    labelled_text("close to"@, expected) + " ±"@ + delta
}

impl<E> CloseTo<E> {
    /// The value a match must be close to.
    pub closed spec fn expected_value(&self) -> E {
        self.expected
    }

    /// The largest deviation allowed.
    pub closed spec fn tolerance_value(&self) -> E {
        self.delta
    }

    /// A matcher of numbers within `delta` of `expected`.
    pub fn new(expected: E, delta: E) -> (r: CloseTo<E>)
        ensures
            r.expected_value() == expected,
            r.tolerance_value() == delta,
    {
        CloseTo { expected: expected, delta: delta }
    }

    /// The same matcher with the tolerance `v`.
    pub fn delta(self, v: E) -> (r: CloseTo<E>)
        ensures
            r.expected_value() == self.expected_value(),
            r.tolerance_value() == v,
    {
        CloseTo { expected: self.expected, delta: v }
    }

    pub fn expected(&self) -> (r: &E)
        ensures
            *r == self.expected_value(),
    {
        &self.expected
    }

    pub fn tolerance(&self) -> (r: &E)
        ensures
            *r == self.tolerance_value(),
    {
        &self.delta
    }
}

impl<E: std::fmt::Debug> CloseTo<E> {
    /// `"expected <join> be close to <<expected>> ±<delta>, got <<actual>>"`,
    /// with the `Debug` renderings of the numbers.
    pub fn failure_message(&self, join: Join, actual: &E) -> (r: String)
        ensures
            exists|e: Seq<char>, d: Seq<char>, a: Seq<char>|
                r@ == failure_text(join.text(), close_to_text(e, d), a),
    {
        let e = debug_text(&self.expected);
        let d = debug_text(&self.delta);
        let a = debug_text(actual);
        let mut predicate = render_predicate("close to", e.as_str());
        push_text(&mut predicate, " ±");
        push_text(&mut predicate, d.as_str());
        proof {
            assert(predicate@ =~= close_to_text(e@, d@));
        }
        render_failure(join, predicate.as_str(), a.as_str())
    }
}

} // verus!
