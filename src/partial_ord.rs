//! The order matchers: less than, less or equal to, greater than, greater or
//! equal to.

use vstd::prelude::*;
use vstd::std_specs::cmp::{PartialOrdIs, PartialOrdSpec};

use core::cmp::Ordering;

use crate::matcher::{debug_text, failure_text, labelled_text, render_failure, render_predicate, Join, Matcher};

verus! {

/// The relation an order matcher asks of the actual value against the
/// expected one.
#[derive(Clone, Copy, Debug, PartialEq, Eq, Structural)]
pub enum Order {
    LessThan,
    LessOrEqualTo,
    GreaterThan,
    GreaterOrEqualTo,
}

impl Order {
    /// The words that name the relation in a failure message.
    pub open spec fn phrase_text(self) -> Seq<char> {
        match self {
            Order::LessThan => "less than"@,
            Order::LessOrEqualTo => "less or equal to"@,
            Order::GreaterThan => "greater than"@,
            Order::GreaterOrEqualTo => "greater or equal to"@,
        }
    }

    /// Whether an outcome of `partial_cmp` of actual against expected
    /// satisfies the relation; an unordered pair (`None`) satisfies none.
    pub open spec fn admits(self, outcome: Option<Ordering>) -> bool {
        match self {
            Order::LessThan => outcome == Some(Ordering::Less),
            Order::LessOrEqualTo => outcome matches Some(Ordering::Less | Ordering::Equal),
            Order::GreaterThan => outcome == Some(Ordering::Greater),
            Order::GreaterOrEqualTo => outcome matches Some(Ordering::Greater | Ordering::Equal),
        }
    }

    pub fn phrase(&self) -> (r: &'static str)
        ensures
            r@ == self.phrase_text(),
    {
        match self {
            Order::LessThan => "less than",
            Order::LessOrEqualTo => "less or equal to",
            Order::GreaterThan => "greater than",
            Order::GreaterOrEqualTo => "greater or equal to",
        }
    }
}

/// A matcher for types that conform to `PartialOrd`.
pub struct PartialOrder<E> {
    expected: E,
    order: Order,
}

impl<E> PartialOrder<E> {
    /// The value the actual one is compared against.
    pub closed spec fn expected_value(&self) -> E {
        self.expected
    }

    /// The relation asked of the actual value.
    pub closed spec fn order_value(&self) -> Order {
        self.order
    }

    fn new(expected: E, order: Order) -> (r: PartialOrder<E>)
        ensures
            r.expected_value() == expected,
            r.order_value() == order,
    {
        PartialOrder { expected: expected, order: order }
    }
}

impl<A: PartialOrd<E> + std::fmt::Debug, E: std::fmt::Debug> Matcher<A, E> for PartialOrder<E> {
    open spec fn obeys_matches_spec() -> bool {
        A::obeys_partial_cmp_spec()
    }

    open spec fn matches_spec(&self, actual: &A) -> bool {
        self.order_value().admits(actual.partial_cmp_spec(&self.expected_value()))
    }

    open spec fn describes_failure(&self, join: Join, actual: &A, message: Seq<char>) -> bool {
        exists|e: Seq<char>, a: Seq<char>|
            message == failure_text(
                join.text(),
                labelled_text(self.order_value().phrase_text(), e),
                a,
            )
    }

    fn matches(&self, actual: &A) -> (r: bool) {
        match self.order {
            Order::LessThan => *actual < self.expected,
            Order::LessOrEqualTo => *actual <= self.expected,
            Order::GreaterThan => *actual > self.expected,
            Order::GreaterOrEqualTo => *actual >= self.expected,
        }
    }

    fn failure_message(&self, join: Join, actual: &A) -> (r: String) {
        let e = debug_text(&self.expected);
        let a = debug_text(actual);
        let predicate = render_predicate(self.order.phrase(), e.as_str());
        render_failure(join, predicate.as_str(), a.as_str())
    }
}

/// A matcher of values less than `expected`.
pub fn be_less_than<E>(expected: E) -> (r: PartialOrder<E>)
    ensures
        r.expected_value() == expected,
        r.order_value() == Order::LessThan,
{
    PartialOrder::new(expected, Order::LessThan)
}

/// A matcher of values less than or equal to `expected`.
pub fn be_less_or_equal_to<E>(expected: E) -> (r: PartialOrder<E>)
    ensures
        r.expected_value() == expected,
        r.order_value() == Order::LessOrEqualTo,
{
    PartialOrder::new(expected, Order::LessOrEqualTo)
}

/// A matcher of values greater than `expected`.
pub fn be_greater_than<E>(expected: E) -> (r: PartialOrder<E>)
    ensures
        r.expected_value() == expected,
        r.order_value() == Order::GreaterThan,
{
    PartialOrder::new(expected, Order::GreaterThan)
}

/// A matcher of values greater than or equal to `expected`.
pub fn be_greater_or_equal_to<E>(expected: E) -> (r: PartialOrder<E>)
    ensures
        r.expected_value() == expected,
        r.order_value() == Order::GreaterOrEqualTo,
{
    PartialOrder::new(expected, Order::GreaterOrEqualTo)
}

/// Each order matcher agrees with its relational operator (`<`, `<=`, `>`,
/// `>=`), and an unordered pair satisfies none of them.
pub proof fn lemma_order_agrees_with_operators<A: PartialOrd<E> + std::fmt::Debug, E: std::fmt::Debug>(
    m: PartialOrder<E>,
    expected: E,
    actual: A,
)
    requires
        m.expected_value() == expected,
    ensures
        m.order_value() == Order::LessThan ==> (<PartialOrder<E> as Matcher<A, E>>::matches_spec(
            &m,
            &actual,
        ) == actual.is_lt(&expected)),
        m.order_value() == Order::LessOrEqualTo ==> (<PartialOrder<E> as Matcher<
            A,
            E,
        >>::matches_spec(&m, &actual) == actual.is_le(&expected)),
        m.order_value() == Order::GreaterThan ==> (<PartialOrder<E> as Matcher<
            A,
            E,
        >>::matches_spec(&m, &actual) == actual.is_gt(&expected)),
        m.order_value() == Order::GreaterOrEqualTo ==> (<PartialOrder<E> as Matcher<
            A,
            E,
        >>::matches_spec(&m, &actual) == actual.is_ge(&expected)),
        actual.partial_cmp_spec(&expected) is None ==> !<PartialOrder<E> as Matcher<
            A,
            E,
        >>::matches_spec(&m, &actual),
{
}

} // verus!
