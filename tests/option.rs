use expectest::{be_none, be_some, Join, Matcher};

#[test]
fn be_some_value_matches_some_value() {
    assert!(be_some().value(5).matches(&Some(5)));
}

#[test]
fn be_some_matches_some_value() {
    assert!(be_some().matches(&Some(5)));
}

#[test]
fn be_some_failure_message() {
    let message = be_some().failure_message(Join::To, &None::<u8>);
    assert!(message == "expected to be Some, got <None>");
}

#[test]
fn be_some_value_failure_message() {
    let message = be_some().value(1).failure_message(Join::To, &None::<u8>);
    assert!(message == "expected to be equal to <Some(1)>, got <None>");
}

#[test]
#[should_panic]
fn be_some_value_matches_some_value_should_panic() {
    assert!(be_some().value(5).matches(&Some(4)));
}

#[test]
#[should_panic]
fn be_some_value_matches_none_should_panic() {
    assert!(be_some().value(5).matches(&None::<u8>));
}

#[test]
#[should_panic]
fn be_some_matches_none_should_panic() {
    assert!(be_some().matches(&None::<u8>));
}

#[test]
fn be_none_matches_none() {
    assert!(be_none().matches(&None::<u8>));
}

#[test]
fn be_none_failure_message() {
    let message = be_none().failure_message(Join::To, &Some(2));
    assert!(message == "expected to be None, got <Some(2)>");
}

#[test]
#[should_panic]
fn be_none_matches_some_should_panic() {
    assert!(be_none().matches(&Some(6)));
}

#[test]
fn be_some_any_payload_and_not_none() {
    assert!(be_some::<&str>().matches(&Some("text")));
    assert!(be_some().matches(&Some(0u64)));
    assert!(!be_some().matches(&None::<u64>));
}

#[test]
fn be_some_value_rejects_other_payload() {
    assert!(!be_some().value(5).matches(&Some(4)));
    assert!(be_some().value(-3i64).matches(&Some(-3i64)));
}

#[test]
fn be_none_rejects_some() {
    assert!(!be_none().matches(&Some(0u8)));
}

#[test]
fn be_none_negated_failure_message() {
    let message = be_none().failure_message(Join::NotTo, &None::<u8>);
    assert_eq!(message, "expected not to be None, got <None>");
}
