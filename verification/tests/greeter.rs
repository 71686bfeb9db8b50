use multiplex::greeter::say_hello;

#[test]
fn greets_by_name() {
    assert_eq!(say_hello("Tonic"), "Hello Tonic!");
}

#[test]
fn greets_the_empty_name() {
    assert_eq!(say_hello(""), "Hello !");
}

#[test]
fn repeated_calls_return_the_identical_message() {
    let first = say_hello("Tonic");
    let second = say_hello("Tonic");
    let third = say_hello("Tonic");
    assert_eq!(first, second);
    assert_eq!(second, third);
}

#[test]
fn name_is_echoed_unmodified() {
    assert_eq!(say_hello("  spaced  "), "Hello   spaced  !");
    assert_eq!(say_hello("Grüße"), "Hello Grüße!");
}
