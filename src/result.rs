//! The matcher of `Ok` results, with an optional payload to equal.

use vstd::prelude::*;
use vstd::std_specs::cmp::PartialEqSpec;

use crate::matcher::{
    debug_text, failure_text, labelled_text, push_text, render_failure, render_predicate, Join,
    Matcher,
};

verus! {

/// Matches `Ok`, and when a value is configured, only an `Ok` whose payload
/// equals it.
pub struct BeOk<E> {
    expected: Option<E>,
}

impl<E> BeOk<E> {
    /// The payload a match must equal, if one is configured.
    pub closed spec fn expected_value(&self) -> Option<E> {
        self.expected
    }

    /// The same matcher, now asking that the payload equal `v`.
    pub fn value(self, v: E) -> (r: BeOk<E>)
        ensures
            r.expected_value() == Some(v),
    {
        BeOk { expected: Some(v) }
    }
}

/// A matcher of any `Ok`.
pub fn be_ok<E>() -> (r: BeOk<E>)
    ensures
        r.expected_value() == None::<E>,
{
    BeOk { expected: None }
}

/// `"Ok(<payload>)"`.
pub open spec fn ok_text(payload: Seq<char>) -> Seq<char> {
    "Ok("@ + payload + ")"@
}

fn render_ok(payload: &str) -> (r: String)
    ensures
        r@ == ok_text(payload@),
{
    let mut s = "Ok(".to_owned();
    push_text(&mut s, payload);
    push_text(&mut s, ")");
    proof {
        assert(s@ =~= ok_text(payload@));
    }
    s
}

impl<A: PartialEq<E> + std::fmt::Debug, E: std::fmt::Debug, X: std::fmt::Debug> Matcher<
    Result<A, X>,
    Result<E, X>,
> for BeOk<E> {
    open spec fn obeys_matches_spec() -> bool {
        A::obeys_eq_spec()
    }

    open spec fn matches_spec(&self, actual: &Result<A, X>) -> bool {
        match self.expected_value() {
            Some(e) => match actual {
                Ok(a) => a.eq_spec(&e),
                Err(_) => false,
            },
            None => actual is Ok,
        }
    }

    open spec fn describes_failure(&self, join: Join, actual: &Result<A, X>, message: Seq<char>) -> bool {
        if self.expected_value() is Some {
            exists|e: Seq<char>, a: Seq<char>|
                message == failure_text(join.text(), labelled_text("equal to"@, ok_text(e)), a)
        } else {
            exists|a: Seq<char>| message == failure_text(join.text(), "Ok"@, a)
        }
    }

    fn matches(&self, actual: &Result<A, X>) -> (r: bool) {
        match &self.expected {
            Some(expected) => match actual {
                Ok(a) => *a == *expected,
                Err(_) => false,
            },
            None => actual.is_ok(),
        }
    }

    fn failure_message(&self, join: Join, actual: &Result<A, X>) -> (r: String) {
        let a = debug_text(actual);
        match &self.expected {
            Some(expected) => {
                let e = debug_text(expected);
                let ok = render_ok(e.as_str());
                let predicate = render_predicate("equal to", ok.as_str());
                render_failure(join, predicate.as_str(), a.as_str())
            },
            None => render_failure(join, "Ok", a.as_str()),
        }
    }
}

} // verus!
