use desktop_shell::greeting::greet;

#[test]
fn greets_world() {
    assert_eq!(greet("World"), "Hello, World! You've been greeted from Rust!");
}

#[test]
fn greets_empty_name_without_special_case() {
    assert_eq!(greet(""), "Hello, ! You've been greeted from Rust!");
}

#[test]
fn keeps_surrounding_whitespace() {
    assert_eq!(greet("  Ada \t"), "Hello,   Ada \t! You've been greeted from Rust!");
}

#[test]
fn does_not_escape_markup_or_braces() {
    assert_eq!(
        greet("<b>{name}</b> & \"co\""),
        "Hello, <b>{name}</b> & \"co\"! You've been greeted from Rust!"
    );
}

#[test]
fn keeps_non_ascii_names() {
    assert_eq!(greet("Zoë 木"), "Hello, Zoë 木! You've been greeted from Rust!");
}

#[test]
fn greeting_is_longer_by_the_fixed_parts() {
    let name = "x".repeat(10_000);
    let text = greet(&name);
    assert_eq!(text.chars().count(), name.chars().count() + 39);
    assert!(text.starts_with("Hello, "));
    assert!(text.ends_with("! You've been greeted from Rust!"));
    assert_eq!(&text[7..7 + name.len()], name);
}

#[test]
fn different_names_give_different_greetings() {
    assert_ne!(greet("Ada"), greet("Ada "));
    assert_ne!(greet("a"), greet("b"));
}
