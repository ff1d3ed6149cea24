//! Composable matchers: predicates over a value under test, each able to
//! describe in words why a value did not satisfy it.

pub mod boolean;
pub mod empty;
pub mod floats;
pub mod matcher;
pub mod option;
pub mod partial_eq;
pub mod partial_ord;
pub mod result;

pub use boolean::{be_false, be_true, BeFalse, BeTrue};
pub use empty::{be_empty, BeEmpty, HasLength};
pub use floats::CloseTo;
pub use matcher::{render_failure, render_predicate, Join, Matcher};
pub use option::{be_none, be_some, BeNone, BeSome};
pub use partial_eq::{be_equal_to, BeEqualTo};
pub use partial_ord::{
    be_greater_or_equal_to, be_greater_than, be_less_or_equal_to, be_less_than, Order, PartialOrder,
};
pub use result::{be_ok, BeOk};
