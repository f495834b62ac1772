use starter::greeting::{greeting_line, GREETING};

#[test]
fn test_example_passes() {
    assert!(true, "This should always pass");
}

#[test]
fn test_addition() {
    let result: i32 = 1 + 1;
    assert_eq!(result, 2, "1 + 1 should equal 2");
}

#[test]
fn test_string_operations() {
    let result = "hello".to_uppercase();
    assert_eq!(result, "HELLO");
}

#[test]
fn greeting_is_the_fixed_text() {
    assert_eq!(GREETING, "Hello, world!");
}

#[test]
fn greeting_line_is_the_greeting_and_one_line_feed() {
    assert_eq!(greeting_line(), "Hello, world!\n");
}

#[test]
fn greeting_line_is_the_same_on_every_call() {
    assert_eq!(greeting_line(), greeting_line());
    assert_eq!(greeting_line().len(), 14);
}
