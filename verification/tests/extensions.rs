use assert4rs::Assert;

#[test]
fn ordering_assertions_succeed_for_ordered_values() {
    Assert::that(3).is_gt(2).is_ge(3).is_ge(2).is_le(3);
    Assert::that(2).is_lt(3).is_le(3);
}

#[test]
fn satisfies_succeeds_for_a_true_predicate() {
    Assert::that(4).satisfies(|v: &i32| *v % 2 == 0);
}

#[test]
fn result_is_ok_and_unwrap_yield_the_payload() {
    let outcome: Result<i32, i32> = Ok(2);
    Assert::that(outcome).is_ok();
    let outcome: Result<i32, i32> = Ok(2);
    Assert::that(outcome).unwrap().is(2);
}

#[test]
fn result_is_err_and_unwrap_err_yield_the_payload() {
    let outcome: Result<i32, i32> = Err(5);
    Assert::that(outcome).is_err();
    let outcome: Result<i32, i32> = Err(5);
    Assert::that(outcome).unwrap_err().is(5);
}

#[test]
fn vec_contains_finds_a_present_element() {
    Assert::that(vec![1, 2, 3]).contains(2);
    Assert::that(vec![1, 2, 3]).contains(1).contains(3);
}

#[test]
fn vec_get_wraps_a_present_element_as_some() {
    let mut a = Assert::that(vec!['a', 'b', 'c']);
    a.get(1).is_some('b');
}

#[test]
fn vec_get_wraps_a_missing_index_as_none() {
    let mut a = Assert::that(vec!['a', 'b', 'c']);
    a.get(5).is_none();
}

#[test]
fn vec_get_removes_the_element_by_swapping_the_last_in() {
    let mut a = Assert::that(vec![1, 2, 3]);
    a.get(0).is_some(1);
    let mut a = a.has_length(2);
    a.get(0).is_some(3);
    a.has_length(1).contains(2);
}

#[test]
fn vec_is_empty_succeeds_for_an_empty_vector() {
    Assert::that(Vec::<i32>::new()).is_empty();
}

#[test]
fn vec_has_length_succeeds_for_the_exact_length() {
    Assert::that(vec![1, 2, 3]).has_length(3);
}

#[test]
fn string_starts_with_succeeds_for_a_prefix() {
    Assert::that(String::from("hello world")).starts_with("hello");
}

#[test]
fn string_ends_with_succeeds_for_a_suffix() {
    Assert::that(String::from("hello world")).ends_with("world");
}

#[test]
fn string_contains_succeeds_for_an_inner_pattern() {
    Assert::that(String::from("hello world")).contains("lo wo");
}

#[test]
fn string_assertions_handle_multibyte_characters() {
    Assert::that(String::from("héllo"))
        .starts_with("h")
        .contains("é")
        .ends_with("llo");
}

#[test]
fn string_assertions_chain() {
    Assert::that(String::from("hello world"))
        .starts_with("hello")
        .ends_with("world")
        .contains(" ");
}
