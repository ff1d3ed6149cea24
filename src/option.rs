//! Matchers over `Option`: present (with an optional payload to equal) and
//! absent.

use vstd::prelude::*;
use vstd::laws_eq::obeys_concrete_eq;
use vstd::std_specs::cmp::PartialEqSpec;

use crate::matcher::{debug_text, failure_text, labelled_text, render_failure, render_predicate, Join, Matcher};

verus! {

/// Matches `Some`, and when a value is configured, only a `Some` whose payload
/// equals it.
pub struct BeSome<E> {
    expected: Option<E>,
}

impl<E> BeSome<E> {
    /// The payload a match must equal, if one is configured.
    pub closed spec fn expected_value(&self) -> Option<E> {
        self.expected
    }

    /// The same matcher, now asking that the payload equal `v`.
    pub fn value(self, v: E) -> (r: BeSome<E>)
        ensures
            r.expected_value() == Some(v),
    {
        BeSome { expected: Some(v) }
    }
}

/// A matcher of any `Some`.
pub fn be_some<E>() -> (r: BeSome<E>)
    ensures
        r.expected_value() == None::<E>,
{
    BeSome { expected: None }
}

impl<A: PartialEq<E> + std::fmt::Debug, E: std::fmt::Debug> Matcher<Option<A>, Option<E>> for BeSome<
    E,
> {
    open spec fn obeys_matches_spec() -> bool {
        A::obeys_eq_spec()
    }

    open spec fn matches_spec(&self, actual: &Option<A>) -> bool {
        match self.expected_value() {
            Some(e) => match actual {
                Some(a) => a.eq_spec(&e),
                None => false,
            },
            None => actual is Some,
        }
    }

    open spec fn describes_failure(&self, join: Join, actual: &Option<A>, message: Seq<char>) -> bool {
        if self.expected_value() is Some {
            exists|e: Seq<char>, a: Seq<char>|
                message == failure_text(join.text(), labelled_text("equal to"@, e), a)
        } else {
            exists|a: Seq<char>| message == failure_text(join.text(), "Some"@, a)
        }
    }

    fn matches(&self, actual: &Option<A>) -> (r: bool) {
        match &self.expected {
            Some(expected) => match actual {
                Some(a) => *a == *expected,
                None => false,
            },
            None => actual.is_some(),
        }
    }

    fn failure_message(&self, join: Join, actual: &Option<A>) -> (r: String) {
        let a = debug_text(actual);
        if self.expected.is_none() {
            render_failure(join, "Some", a.as_str())
        } else {
            let e = debug_text(&self.expected);
            let predicate = render_predicate("equal to", e.as_str());
            render_failure(join, predicate.as_str(), a.as_str())
        }
    }
}

/// Matches `None` only.
pub struct BeNone;

/// A matcher of `None`.
pub fn be_none() -> (r: BeNone) {
    BeNone
}

impl<A: std::fmt::Debug> Matcher<Option<A>, Option<A>> for BeNone {
    open spec fn obeys_matches_spec() -> bool {
        true
    }

    open spec fn matches_spec(&self, actual: &Option<A>) -> bool {
        actual is None
    }

    open spec fn describes_failure(&self, join: Join, actual: &Option<A>, message: Seq<char>) -> bool {
        exists|a: Seq<char>| message == failure_text(join.text(), "None"@, a)
    }

    fn matches(&self, actual: &Option<A>) -> (r: bool) {
        actual.is_none()
    }

    fn failure_message(&self, join: Join, actual: &Option<A>) -> (r: String) {
        let a = debug_text(actual);
        render_failure(join, "None", a.as_str())
    }
}

/// A presence matcher with no value configured accepts every `Some`, whatever
/// its payload, and rejects `None`.
pub proof fn lemma_some_accepts_any_payload<A: PartialEq<E> + std::fmt::Debug, E: std::fmt::Debug>(
    m: BeSome<E>,
    payload: A,
)
    requires
        m.expected_value() is None,
    ensures
        <BeSome<E> as Matcher<Option<A>, Option<E>>>::matches_spec(&m, &Some(payload)),
        !<BeSome<E> as Matcher<Option<A>, Option<E>>>::matches_spec(&m, &None),
{
}

/// A presence matcher configured with `v`, for a type whose `==` is
/// identity, accepts `Some(v)`, rejects `Some(w)` for every other `w`, and
/// rejects `None`.
pub proof fn lemma_some_value_accepts_only_value<E: PartialEq + std::fmt::Debug>(
    m: BeSome<E>,
    v: E,
    w: E,
)
    requires
        m.expected_value() == Some(v),
        obeys_concrete_eq::<E>(),
    ensures
        <BeSome<E> as Matcher<Option<E>, Option<E>>>::matches_spec(&m, &Some(v)),
        w != v ==> !<BeSome<E> as Matcher<Option<E>, Option<E>>>::matches_spec(&m, &Some(w)),
        !<BeSome<E> as Matcher<Option<E>, Option<E>>>::matches_spec(&m, &None),
{
    reveal(obeys_concrete_eq);
}

/// The absence matcher accepts `None` and rejects every `Some`.
pub proof fn lemma_none_accepts_only_none<A: std::fmt::Debug>(m: BeNone, actual: Option<A>)
    ensures
        <BeNone as Matcher<Option<A>, Option<A>>>::matches_spec(&m, &actual) <==> actual is None,
{
}

} // verus!
