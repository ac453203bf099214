use snippet_shim::text::str_eq;
use snippet_shim::{dialog_error_message, greet};

#[test]
fn greet_frames_the_name() {
    assert_eq!(
        greet("Verus"),
        "Hello, Verus! You've been greeted from Rust!"
    );
}

#[test]
fn greet_with_empty_name() {
    assert_eq!(greet(""), "Hello, ! You've been greeted from Rust!");
}

#[test]
fn dialog_error_names_the_cause() {
    assert_eq!(
        dialog_error_message("display unavailable"),
        "failed to open dialog: display unavailable"
    );
}

#[test]
fn str_eq_compares_characters() {
    assert!(str_eq("", ""));
    assert!(str_eq("appData", "appData"));
    assert!(!str_eq("appData", "appdata"));
    assert!(!str_eq("home", "homes"));
}
