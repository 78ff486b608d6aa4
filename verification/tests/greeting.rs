use c2c_proxy::greeting::greet;

#[test]
fn greets_ada() {
    assert_eq!(greet("Ada"), "Hello, Ada! You've been greeted from Rust!");
}

#[test]
fn greets_an_empty_name() {
    assert_eq!(greet(""), "Hello, ! You've been greeted from Rust!");
}

#[test]
fn keeps_the_name_as_given() {
    assert_eq!(
        greet("  Zoë {}\n"),
        "Hello,   Zoë {}\n! You've been greeted from Rust!"
    );
}
