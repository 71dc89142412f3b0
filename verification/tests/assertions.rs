use assert4rs::Assert;

#[test]
fn is_succeeds_for_equal_values() {
    Assert::that(2).is(2);
}

#[test]
fn is_succeeds_for_equal_string_values() {
    Assert::that(String::from("2")).is(String::from("2"));
}

#[test]
fn is_succeeds_for_equal_string_and_string_slice() {
    Assert::that(String::from("2")).is("2");
}

#[test]
fn ne_succeeds_for_different_values() {
    Assert::that(2).is_not(3);
}

#[test]
fn map_converts_assertion_pass() {
    Assert::that(2).map(|v| v + 2).is(4);
}

#[test]
fn option_is_some_succeeds_for_equal_values() {
    Assert::that(Some(2)).is_some(2);
}

#[test]
fn option_unwrap_successfully_unwraps_some_value() {
    Assert::that(Some(2)).unwrap().is(2);
}

#[test]
fn option_is_none_succeeds_for_none() {
    let i: Option<i32> = None;
    Assert::that(i).is_none();
}

#[test]
fn is_succeeds_twice_on_the_same_value() {
    Assert::that(2).is(2).is(2);
}

#[test]
fn successful_assertions_chain_on_the_unchanged_value() {
    Assert::that(2).is(2).is_not(3).is_lt(5).is(2);
}

#[test]
fn map_can_change_the_wrapped_type() {
    Assert::that("3").map(|v| v.len()).is(1usize);
}
