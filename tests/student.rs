use rust_example::decimal::decimal_string;
use rust_example::greeting::greeting;
use rust_example::student::{Person, Student};

#[test]
fn describe_john() {
    let s = Student::new(String::from("John"), 20, String::from("A"));
    assert_eq!(s.get_info(), "Name: John, Age: 20, Grade: A");
}

#[test]
fn name_through_person() {
    let s = Student::new(String::from("John"), 20, String::from("A"));
    assert_eq!(s.get_name(), "John");
}

#[test]
fn describe_empty_texts_and_zero_age() {
    let s = Student::new(String::new(), 0, String::new());
    assert_eq!(s.get_info(), "Name: , Age: 0, Grade: ");
    assert_eq!(s.get_name(), "");
}

#[test]
fn describe_largest_age() {
    let s = Student::new(String::from("Ada"), u32::MAX, String::from("B+"));
    assert_eq!(s.get_info(), "Name: Ada, Age: 4294967295, Grade: B+");
}

#[test]
fn decimal_values() {
    assert_eq!(decimal_string(0), "0");
    assert_eq!(decimal_string(7), "7");
    assert_eq!(decimal_string(10), "10");
    assert_eq!(decimal_string(305), "305");
    assert_eq!(decimal_string(u32::MAX), "4294967295");
}

#[test]
fn greet_john() {
    assert_eq!(greeting("John"), "Hello, John!");
}

#[test]
fn greet_empty_name() {
    assert_eq!(greeting(""), "Hello, !");
}
