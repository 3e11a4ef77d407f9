use app_commands::greeting::greet;

#[test]
fn greet_world_follows_the_template() {
    assert_eq!(greet("World"), "Hello, World! You've been greeted from Rust!");
}

#[test]
fn greet_empty_name_keeps_the_template() {
    assert_eq!(greet(""), "Hello, ! You've been greeted from Rust!");
}

#[test]
fn greet_contains_the_given_name() {
    let sentence = greet("Ada Lovelace");
    assert!(sentence.contains("Ada Lovelace"));
    assert!(sentence.starts_with("Hello, "));
    assert!(sentence.ends_with("! You've been greeted from Rust!"));
}

#[test]
fn greet_keeps_unicode_names() {
    assert_eq!(greet("Zoë"), "Hello, Zoë! You've been greeted from Rust!");
}
