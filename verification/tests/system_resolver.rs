use macro_env::{systemreader, EnvEntry, EnvError};

fn entry(name: &str, value: &str) -> EnvEntry {
    EnvEntry { name: name.to_string(), value: Some(value.to_string()) }
}

#[test]
fn present_key_resolves_exact_stored_value() {
    let environment = vec![entry("HOME_DIR", "/home/someone")];
    let r = systemreader(&environment, "HOME_DIR");
    assert_eq!(r, Ok("/home/someone".to_string()));
}

#[test]
fn absent_env_key_is_not_found() {
    let environment = vec![entry("HOME_DIR", "/home/someone")];
    let r = systemreader(&environment, "API_TOKEN");
    assert_eq!(r, Err(EnvError::NotFound));
}

#[test]
fn empty_table_is_not_found() {
    let environment: Vec<EnvEntry> = Vec::new();
    let r = systemreader(&environment, "API_TOKEN");
    assert_eq!(r, Err(EnvError::NotFound));
}

#[test]
fn undecodable_value_is_an_encoding_failure() {
    let environment = vec![EnvEntry { name: "RAW".to_string(), value: None }];
    let r = systemreader(&environment, "RAW");
    assert_eq!(r, Err(EnvError::Encoding));
}

#[test]
fn first_entry_with_the_name_wins() {
    let environment = vec![entry("KEY", "first"), entry("KEY", "second")];
    let r = systemreader(&environment, "KEY");
    assert_eq!(r, Ok("first".to_string()));
}

#[test]
fn empty_stored_value_is_returned_as_is() {
    let environment = vec![entry("EMPTY", "")];
    let r = systemreader(&environment, "EMPTY");
    assert_eq!(r, Ok("".to_string()));
}
