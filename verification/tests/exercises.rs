use dnd_character::arith::{add, checked_factorial, factorial};
use dnd_character::text::{calculate_length, join_strings, modify, world};

#[test]
fn add_gives_the_sum() {
    assert_eq!(add(5, 10), 15);
    assert_eq!(add(-7, 3), -4);
    assert_eq!(add(i32::MAX, 0), i32::MAX);
    assert_eq!(add(i32::MIN, i32::MAX), -1);
}

#[test]
fn factorial_of_small_numbers() {
    assert_eq!(factorial(0), 1);
    assert_eq!(factorial(1), 1);
    assert_eq!(factorial(2), 2);
    assert_eq!(factorial(5), 120);
    assert_eq!(factorial(10), 3628800);
    assert_eq!(factorial(20), 2432902008176640000);
}

#[test]
fn checked_factorial_stops_at_twenty() {
    assert_eq!(checked_factorial(0), Some(1));
    assert_eq!(checked_factorial(6), Some(720));
    assert_eq!(checked_factorial(20), Some(2432902008176640000));
    assert_eq!(checked_factorial(21), None);
    assert_eq!(checked_factorial(u64::MAX), None);
}

#[test]
fn world_is_the_word() {
    assert_eq!(world(), "world");
}

#[test]
fn join_strings_puts_one_space_between() {
    assert_eq!(join_strings("hello", "world"), "hello world");
    assert_eq!(join_strings("", ""), " ");
    assert_eq!(join_strings("a\n", "b\n"), "a\n b\n");
    assert_eq!(join_strings("hello", world()), "hello world");
}

#[test]
fn calculate_length_counts_bytes() {
    assert_eq!(calculate_length(&String::from("Hello, Borrowing!")), 17);
    assert_eq!(calculate_length(&String::new()), 0);
    assert_eq!(calculate_length(&String::from("h\u{e9}llo")), 6);
}

#[test]
fn modify_appends_to_the_string() {
    let mut s = String::from("Hello");
    modify(&mut s);
    assert_eq!(s, "Hello, mutable borrowing!");
    let mut empty = String::new();
    modify(&mut empty);
    assert_eq!(empty, ", mutable borrowing!");
}
