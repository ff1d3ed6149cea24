use expectest::{
    be_greater_or_equal_to, be_greater_than, be_less_or_equal_to, be_less_than, Join, Matcher,
};

#[test]
fn be_less_than_one_matches() {
    assert!(be_less_than(1).matches(&0));
}

#[test]
#[should_panic]
fn be_less_than_one_should_panic() {
    assert!(be_less_than(1).matches(&1));
}

#[test]
fn be_less_than_one_failure_message() {
    let m = be_less_than(1).failure_message(Join::To, &1);
    assert!(m == "expected to be less than <1>, got <1>");
}

#[test]
fn be_less_or_equal_to_one_matches() {
    assert!(be_less_or_equal_to(1).matches(&1));
}

#[test]
fn be_less_or_equal_to_one_matches_zero() {
    assert!(be_less_or_equal_to(1).matches(&0));
}

#[test]
#[should_panic]
fn be_less_or_equal_to_one_should_panic() {
    assert!(be_less_or_equal_to(1).matches(&2));
}

#[test]
fn be_less_or_equal_to_one_failure_message() {
    let m = be_less_or_equal_to(1).failure_message(Join::To, &2);
    assert!(m == "expected to be less or equal to <1>, got <2>");
}

#[test]
fn be_greater_than_zero_matches() {
    assert!(be_greater_than(0).matches(&1));
}

#[test]
#[should_panic]
fn be_greater_than_zero_should_panic() {
    assert!(be_greater_than(0).matches(&0));
}

#[test]
fn be_greater_than_zero_failure_message() {
    let m = be_greater_than(0).failure_message(Join::To, &0);
    assert!(m == "expected to be greater than <0>, got <0>");
}

#[test]
fn be_greater_or_equal_to_zero_matches() {
    assert!(be_greater_or_equal_to(0).matches(&0));
}

#[test]
fn be_greater_or_equal_to_zero_matches_one() {
    assert!(be_greater_or_equal_to(0).matches(&1));
}

#[test]
#[should_panic]
fn be_greater_or_equal_to_zero_should_panic() {
    assert!(be_greater_or_equal_to(0).matches(&-1));
}

#[test]
fn be_greater_or_equal_to_zero_failure_message() {
    let m = be_greater_or_equal_to(0).failure_message(Join::To, &-1);
    assert!(m == "expected to be greater or equal to <0>, got <-1>");
}

#[test]
fn order_unordered_pair_matches_nothing() {
    let nan = f64::NAN;
    assert!(!be_less_than(1.0).matches(&nan));
    assert!(!be_less_or_equal_to(1.0).matches(&nan));
    assert!(!be_greater_than(1.0).matches(&nan));
    assert!(!be_greater_or_equal_to(1.0).matches(&nan));
}

#[test]
fn order_boundaries() {
    assert!(be_less_than(1).matches(&0));
    assert!(!be_less_than(1).matches(&1));
    assert!(be_less_or_equal_to(1).matches(&1));
    assert!(!be_greater_than(5u8).matches(&5u8));
    assert!(be_greater_or_equal_to(5u8).matches(&5u8));
    assert!(!be_greater_or_equal_to(5u8).matches(&4u8));
}

#[test]
fn order_negated_failure_message() {
    let m = be_greater_than(3).failure_message(Join::NotTo, &4);
    assert_eq!(m, "expected not to be greater than <3>, got <4>");
}
