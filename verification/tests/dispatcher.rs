use macro_env::{envseeker, seek_sources, EnvEntry, EnvError, SearchType, SeekOutcome};

fn lines(raw: &[&str]) -> Option<Vec<String>> {
    Some(raw.iter().map(|s| s.to_string()).collect())
}

fn entry(name: &str, value: &str) -> EnvEntry {
    EnvEntry { name: name.to_string(), value: Some(value.to_string()) }
}

#[test]
fn all_mode_takes_the_file_value_first() {
    let file = lines(&["TOKEN=abc123"]);
    let environment = vec![entry("TOKEN", "from-environment")];
    let r = envseeker(SearchType::All, "TOKEN", &file, &environment, "from-input\n");
    assert_eq!(r, "abc123".to_string());
}

#[test]
fn all_mode_never_asks_for_input_when_the_file_answers() {
    let file = lines(&["TOKEN=abc123"]);
    let environment = vec![entry("TOKEN", "from-environment")];
    match seek_sources(SearchType::All, "TOKEN", &file, &environment) {
        SeekOutcome::Found(v) => assert_eq!(v, "abc123".to_string()),
        _ => panic!("the file value should have been found"),
    }
}

#[test]
fn all_mode_falls_back_on_the_environment() {
    let environment = vec![entry("TOKEN", "from-environment")];
    let r = envseeker(SearchType::All, "TOKEN", &None, &environment, "from-input\n");
    assert_eq!(r, "from-environment".to_string());
}

#[test]
fn all_mode_falls_through_to_the_input_line() {
    let environment: Vec<EnvEntry> = Vec::new();
    let r = envseeker(SearchType::All, "TOKEN", &None, &environment, "  user-input \n");
    assert_eq!(r, "user-input".to_string());
}

#[test]
fn all_mode_with_an_empty_file_still_falls_through() {
    let environment: Vec<EnvEntry> = Vec::new();
    let r = envseeker(SearchType::All, "TOKEN", &lines(&[]), &environment, "typed\n");
    assert_eq!(r, "typed".to_string());
}

#[test]
fn all_mode_reports_the_need_for_input() {
    let environment: Vec<EnvEntry> = Vec::new();
    match seek_sources(SearchType::All, "TOKEN", &None, &environment) {
        SeekOutcome::NeedInput => {}
        _ => panic!("with no file and no environment entry, input should be wanted"),
    }
}

#[test]
fn file_mode_resolves_a_quoted_value() {
    let file = lines(&["KEY=\"quoted value\""]);
    let environment: Vec<EnvEntry> = Vec::new();
    let r = envseeker(SearchType::Envfile, "KEY", &file, &environment, "");
    assert_eq!(r, "quoted value".to_string());
}

#[test]
fn file_mode_surfaces_the_not_found_failure() {
    let environment: Vec<EnvEntry> = Vec::new();
    match seek_sources(SearchType::Envfile, "KEY", &None, &environment) {
        SeekOutcome::Failed(e) => assert_eq!(e, EnvError::NotFound),
        _ => panic!("a missing file should fail the file-only mode"),
    }
}

#[test]
fn system_mode_surfaces_the_encoding_failure() {
    let environment = vec![EnvEntry { name: "RAW".to_string(), value: None }];
    match seek_sources(SearchType::System, "RAW", &None, &environment) {
        SeekOutcome::Failed(e) => assert_eq!(e, EnvError::Encoding),
        _ => panic!("an undecodable value should fail the system-only mode"),
    }
}

#[test]
fn system_mode_resolves_from_the_table() {
    let environment = vec![entry("KEY", "stored")];
    let r = envseeker(SearchType::System, "KEY", &None, &environment, "");
    assert_eq!(r, "stored".to_string());
}

#[test]
fn input_mode_always_wants_a_line() {
    let environment: Vec<EnvEntry> = Vec::new();
    match seek_sources(SearchType::Input, "KEY", &None, &environment) {
        SeekOutcome::NeedInput => {}
        _ => panic!("the input-only mode should ask for a line"),
    }
}

#[test]
fn input_mode_returns_the_trimmed_line() {
    let environment: Vec<EnvEntry> = Vec::new();
    let r = envseeker(SearchType::Input, "KEY", &None, &environment, "  hello \n");
    assert_eq!(r, "hello".to_string());
}

#[test]
fn io_error_is_distinct_from_the_other_failures() {
    assert_eq!(EnvError::Io, EnvError::Io);
    assert_ne!(EnvError::Io, EnvError::NotFound);
    assert_ne!(EnvError::Io, EnvError::Encoding);
}
