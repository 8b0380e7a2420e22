use wasmrs_wasmtime::service::TestComponent;

#[test]
fn test_returns_test() {
    assert_eq!(TestComponent::test(), "test");
}

#[test]
fn echo_returns_message() {
    assert_eq!(TestComponent::echo("HELLO WORLD".to_owned()), "HELLO WORLD");
}

#[test]
fn chars_splits_characters() {
    assert_eq!(TestComponent::chars("héy"), vec!["h".to_owned(), "é".to_owned(), "y".to_owned()]);
    assert!(TestComponent::chars("").is_empty());
}

#[test]
fn reverse_reverses_characters() {
    assert_eq!(TestComponent::reverse("abc"), "cba");
    assert_eq!(TestComponent::reverse("añb"), "bña");
    assert_eq!(TestComponent::reverse(""), "");
}

#[test]
fn wrap_surrounds_input() {
    assert_eq!(TestComponent::wrap("<", ">", "x"), "<x>");
    assert_eq!(TestComponent::wrap("", "", ""), "");
}
