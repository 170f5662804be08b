use macro_env::input;

#[test]
fn whitespace_is_trimmed_from_both_ends() {
    assert_eq!(input("  hello \n"), "hello".to_string());
}

#[test]
fn a_clean_line_is_kept_as_is() {
    assert_eq!(input("hello"), "hello".to_string());
}

#[test]
fn a_blank_line_trims_to_empty() {
    assert_eq!(input("   \n"), "".to_string());
}

#[test]
fn tabs_and_carriage_returns_are_whitespace() {
    assert_eq!(input("\tvalue\r\n"), "value".to_string());
}

#[test]
fn inner_whitespace_is_kept() {
    assert_eq!(input(" a b \n"), "a b".to_string());
}
