use expectest::{be_equal_to, Join, Matcher};

#[test]
fn equality_of_ints() {
    assert!(be_equal_to(1).matches(&1));
}

#[test]
fn equality_rejects_other_values() {
    assert!(!be_equal_to(1).matches(&2));
    assert!(be_equal_to(String::from("a")).matches(&String::from("a")));
    assert!(!be_equal_to(String::from("a")).matches(&String::from("b")));
}

#[test]
fn equality_failure_message() {
    let message = be_equal_to(1).failure_message(Join::To, &2);
    assert_eq!(message, "expected to be equal to <1>, got <2>");
    let message = be_equal_to("x").failure_message(Join::NotTo, &"x");
    assert_eq!(message, "expected not to be equal to <\"x\">, got <\"x\">");
}
