//! Matchers of the literals `true` and `false`.

use vstd::prelude::*;

use crate::matcher::{failure_text, render_failure, Join, Matcher};

verus! {

/// `"true"` or `"false"`.
pub open spec fn bool_text(b: bool) -> Seq<char> {
    if b {
        "true"@
    } else {
        "false"@
    }
}

fn bool_str(b: bool) -> (r: &'static str)
    ensures
        r@ == bool_text(b),
{
    if b {
        "true"
    } else {
        "false"
    }
}

/// Matches `true` only.
pub struct BeTrue;

/// A matcher of `true`.
pub fn be_true() -> (r: BeTrue) {
    BeTrue
}

impl Matcher<bool, bool> for BeTrue {
    open spec fn obeys_matches_spec() -> bool {
        true
    }

    open spec fn matches_spec(&self, actual: &bool) -> bool {
        *actual
    }

    open spec fn describes_failure(&self, join: Join, actual: &bool, message: Seq<char>) -> bool {
        message == failure_text(join.text(), "true"@, bool_text(*actual))
    }

    fn matches(&self, actual: &bool) -> (r: bool) {
        *actual
    }

    fn failure_message(&self, join: Join, actual: &bool) -> (r: String) {
        render_failure(join, "true", bool_str(*actual))
    }
}

/// Matches `false` only.
pub struct BeFalse;

/// A matcher of `false`.
pub fn be_false() -> (r: BeFalse) {
    BeFalse
}

impl Matcher<bool, bool> for BeFalse {
    open spec fn obeys_matches_spec() -> bool {
        true
    }

    open spec fn matches_spec(&self, actual: &bool) -> bool {
        !*actual
    }

    open spec fn describes_failure(&self, join: Join, actual: &bool, message: Seq<char>) -> bool {
        message == failure_text(join.text(), "false"@, bool_text(*actual))
    }

    fn matches(&self, actual: &bool) -> (r: bool) {
        !*actual
    }

    fn failure_message(&self, join: Join, actual: &bool) -> (r: String) {
        render_failure(join, "false", bool_str(*actual))
    }
}

} // verus!
