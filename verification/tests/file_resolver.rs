use macro_env::{dotenvreader, EnvError};

fn lines(raw: &[&str]) -> Vec<String> {
    raw.iter().map(|s| s.to_string()).collect()
}

#[test]
fn sole_line_resolves_exact_value() {
    let r = dotenvreader(&lines(&["API_TOKEN=secret"]), "API_TOKEN");
    assert_eq!(r, Ok("secret".to_string()));
}

#[test]
fn sole_line_strips_wrapping_quotes() {
    let r = dotenvreader(&lines(&["KEY=\"v\""]), "KEY");
    assert_eq!(r, Ok("v".to_string()));
}

#[test]
fn quoted_value_round_trips() {
    let r = dotenvreader(&lines(&["KEY=\"quoted value\""]), "KEY");
    assert_eq!(r, Ok("quoted value".to_string()));
}

#[test]
fn absent_key_is_not_found() {
    let r = dotenvreader(&lines(&["OTHER=x"]), "KEY");
    assert_eq!(r, Err(EnvError::NotFound));
}

#[test]
fn match_behind_a_failing_line_is_not_reached() {
    let r = dotenvreader(&lines(&["OTHER=x", "KEY=y"]), "KEY");
    assert_eq!(r, Err(EnvError::NotFound));
}

#[test]
fn empty_file_is_not_found() {
    let r = dotenvreader(&lines(&[]), "KEY");
    assert_eq!(r, Err(EnvError::NotFound));
}

#[test]
fn line_without_separator_is_not_found() {
    let r = dotenvreader(&lines(&["KEY"]), "KEY");
    assert_eq!(r, Err(EnvError::NotFound));
}

#[test]
fn empty_value_is_not_found() {
    let r = dotenvreader(&lines(&["KEY="]), "KEY");
    assert_eq!(r, Err(EnvError::NotFound));
}

#[test]
fn value_may_contain_the_separator() {
    let r = dotenvreader(&lines(&["KEY=a=b"]), "KEY");
    assert_eq!(r, Ok("a=b".to_string()));
}

#[test]
fn every_line_matching_keeps_the_last_value() {
    let r = dotenvreader(&lines(&["KEY=a", "KEY=b"]), "KEY");
    assert_eq!(r, Ok("b".to_string()));
}

#[test]
fn lone_quote_character_is_kept() {
    let r = dotenvreader(&lines(&["KEY=\""]), "KEY");
    assert_eq!(r, Ok("\"".to_string()));
}

#[test]
fn quote_on_one_end_only_is_kept() {
    let r = dotenvreader(&lines(&["KEY=\"a"]), "KEY");
    assert_eq!(r, Ok("\"a".to_string()));
}

#[test]
fn empty_quoted_value_strips_to_empty() {
    let r = dotenvreader(&lines(&["KEY=\"\""]), "KEY");
    assert_eq!(r, Ok("".to_string()));
}

#[test]
fn key_prefix_alone_does_not_match() {
    let r = dotenvreader(&lines(&["KEYS=v"]), "KEY");
    assert_eq!(r, Err(EnvError::NotFound));
}
