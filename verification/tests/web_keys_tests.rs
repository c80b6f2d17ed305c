use kiss3d::event::Key;
use kiss3d::web_keys::{str_eq, translate_web_key};

#[test]
fn web_letters_in_either_case() {
    assert_eq!(translate_web_key("a"), Key::A);
    assert_eq!(translate_web_key("A"), Key::A);
    assert_eq!(translate_web_key("z"), Key::Z);
    assert_eq!(translate_web_key("Z"), Key::Z);
}

#[test]
fn web_digits_and_function_keys() {
    assert_eq!(translate_web_key("1"), Key::Key1);
    assert_eq!(translate_web_key("0"), Key::Key0);
    assert_eq!(translate_web_key("F1"), Key::F1);
    assert_eq!(translate_web_key("F12"), Key::F12);
}

#[test]
fn web_named_keys() {
    assert_eq!(translate_web_key(" "), Key::Space);
    assert_eq!(translate_web_key("\\"), Key::Backslash);
    assert_eq!(translate_web_key("ArrowLeft"), Key::Left);
    assert_eq!(translate_web_key("Escape"), Key::Escape);
    assert_eq!(translate_web_key("Tab"), Key::Tab);
}

#[test]
fn web_unknown_names() {
    assert_eq!(translate_web_key(""), Key::Unknown);
    assert_eq!(translate_web_key("ä"), Key::Unknown);
    assert_eq!(translate_web_key("F13x"), Key::Unknown);
    assert_eq!(translate_web_key("aa"), Key::Unknown);
}

#[test]
fn string_equality() {
    assert!(str_eq("abc", "abc"));
    assert!(!str_eq("abc", "abd"));
    assert!(!str_eq("ab", "abc"));
    assert!(str_eq("", ""));
    assert!(str_eq("ä", "ä"));
}
