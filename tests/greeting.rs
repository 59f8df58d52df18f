use desktop_app::greeting::greet;

#[test]
fn greet_world() {
    assert_eq!(greet("World"), "Hello, World! You've been greeted from Rust!");
}

#[test]
fn greet_empty_name() {
    assert_eq!(greet(""), "Hello, ! You've been greeted from Rust!");
}

#[test]
fn greet_control_characters() {
    assert_eq!(
        greet("a\n\t\u{0}b"),
        "Hello, a\n\t\u{0}b! You've been greeted from Rust!"
    );
}

#[test]
fn greet_non_ascii_name() {
    assert_eq!(greet("Zoë 世界"), "Hello, Zoë 世界! You've been greeted from Rust!");
}

#[test]
fn greet_repeated_calls_agree() {
    let first = greet("Ada");
    for _ in 0..5 {
        assert_eq!(greet("Ada"), first);
    }
    assert_eq!(first, "Hello, Ada! You've been greeted from Rust!");
}

#[test]
fn greet_keeps_the_name() {
    let name = "Hello, ! You've been greeted from Rust!";
    let r = greet(name);
    assert_eq!(r.len(), "Hello, ".len() + name.len() + "! You've been greeted from Rust!".len());
    assert!(r.starts_with("Hello, Hello, "));
}
