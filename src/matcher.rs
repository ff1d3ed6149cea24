//! The matcher capability, the join words of a message, and the shared text
//! of failure messages.

use vstd::prelude::*;

verus! {

/// The words between "expected" and "be" in a failure message, chosen by the
/// caller so that one matcher serves both affirmative and negated assertions.
#[derive(Clone, Copy, Debug, PartialEq, Eq, Structural)]
pub enum Join {
    To,
    NotTo,
}

impl Join {
    pub open spec fn text(self) -> Seq<char> {
        match self {
            Join::To => "to"@,
            Join::NotTo => "not to"@,
        }
    }

    pub fn as_str(&self) -> (r: &'static str)
        ensures
            r@ == self.text(),
    {
        match self {
            Join::To => "to",
            Join::NotTo => "not to",
        }
    }
}

/// `"expected <join> be <predicate>, got <<actual>>"`.
pub open spec fn failure_text(join: Seq<char>, predicate: Seq<char>, actual: Seq<char>) -> Seq<
    char,
> {
    "expected "@ + join + " be "@ + predicate + ", got <"@ + actual + ">"@
}

/// `"<label> <<expected>>"`: a predicate that names an expected value.
pub open spec fn labelled_text(label: Seq<char>, expected: Seq<char>) -> Seq<char> {
    label + " <"@ + expected + ">"@
}

/// Relies on `String::push_str`: appends the characters of `tail` to `s`.
#[verifier::external_body]
pub(crate) fn push_text(s: &mut String, tail: &str)
    ensures
        final(s)@ == old(s)@ + tail@,
{
    s.push_str(tail);
}

/// Relies on the `Debug` formatting of `T` (`{:?}`) to render a value; what
/// the text holds is up to the type's `Debug` impl.
#[verifier::external_body]
pub(crate) fn debug_text<T: std::fmt::Debug>(value: &T) -> (r: String) {
    format!("{:?}", value)
}

/// Builds `"expected <join> be <predicate>, got <<actual>>"`.
pub fn render_failure(join: Join, predicate: &str, actual: &str) -> (r: String)
    ensures
        r@ == failure_text(join.text(), predicate@, actual@),
{
    let mut s = "expected ".to_owned();
    push_text(&mut s, join.as_str());
    push_text(&mut s, " be ");
    push_text(&mut s, predicate);
    push_text(&mut s, ", got <");
    push_text(&mut s, actual);
    push_text(&mut s, ">");
    proof {
        assert(s@ =~= failure_text(join.text(), predicate@, actual@));
    }
    s
}

/// Builds `"<label> <<expected>>"`, the predicate of a message that names an
/// expected value.
pub fn render_predicate(label: &str, expected: &str) -> (r: String)
    ensures
        r@ == labelled_text(label@, expected@),
{
    let mut s = label.to_owned();
    push_text(&mut s, " <");
    push_text(&mut s, expected);
    push_text(&mut s, ">");
    proof {
        assert(s@ =~= labelled_text(label@, expected@));
    }
    s
}

/// A predicate over a value of type `A`, able to describe a value that fails it.
/// `E` is the type the matcher compares against.
pub trait Matcher<A, E> {
    /// Holds when the comparisons the matcher relies on behave, for `A`, as
    /// their specifications say.
    spec fn obeys_matches_spec() -> bool;

    /// Whether `actual` satisfies the matcher.
    spec fn matches_spec(&self, actual: &A) -> bool;

    /// Whether `message` is a failure message of this matcher for `actual`
    /// under `join`, whatever text the values' `Debug` renderings give.
    spec fn describes_failure(&self, join: Join, actual: &A, message: Seq<char>) -> bool;

    fn matches(&self, actual: &A) -> (r: bool)
        ensures
            Self::obeys_matches_spec() ==> r == self.matches_spec(actual),
    ;

    fn failure_message(&self, join: Join, actual: &A) -> (r: String)
        ensures
            self.describes_failure(join, actual, r@),
    ;
}

} // verus!
