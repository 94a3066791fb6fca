use grep_directory::config::{ArgumentError, Config};

fn args(tokens: &[&str]) -> Vec<String> {
    tokens.iter().map(|t| t.to_string()).collect()
}

#[test]
fn empty_argument_list_is_missing_path() {
    let a = args(&[]);
    let r = Config::parse_arguments(&a);
    assert_eq!(r.err(), Some(ArgumentError::MissingPath));
}

#[test]
fn program_name_alone_is_missing_path() {
    let a = args(&["prog"]);
    let r = Config::parse_arguments(&a);
    assert_eq!(r.err(), Some(ArgumentError::MissingPath));
}

#[test]
fn path_without_query_is_missing_query() {
    let a = args(&["prog", "some/dir"]);
    let r = Config::parse_arguments(&a);
    assert_eq!(r.err(), Some(ArgumentError::MissingQuery));
}

#[test]
fn empty_path_token_is_missing_path() {
    let a = args(&["prog", "", "query"]);
    let r = Config::parse_arguments(&a);
    assert_eq!(r.err(), Some(ArgumentError::MissingPath));
}

#[test]
fn missing_path_reported_before_resolve_sees_the_disk() {
    let a = args(&["prog"]);
    assert_eq!(Config::resolve(&a, true).err(), Some(ArgumentError::MissingPath));
    assert_eq!(Config::resolve(&a, false).err(), Some(ArgumentError::MissingPath));
}

#[test]
fn tokens_are_partitioned_by_leading_dash() {
    let a = args(&["prog", "-r", "some/dir", "needle"]);
    let (opts, path, query) = Config::parse_arguments(&a).unwrap();
    assert_eq!(opts, args(&["-r"]));
    assert_eq!(path, "some/dir");
    assert_eq!(query, "needle");
}

#[test]
fn flag_after_positionals_is_still_a_flag() {
    let a = args(&["prog", "some/dir", "needle", "-v"]);
    let (opts, path, query) = Config::parse_arguments(&a).unwrap();
    assert_eq!(opts, args(&["-v"]));
    assert_eq!(path, "some/dir");
    assert_eq!(query, "needle");
}

#[test]
fn trailing_positionals_concatenate_without_separator() {
    let a = args(&["prog", "some/dir", "hello", "world"]);
    let (_, _, query) = Config::parse_arguments(&a).unwrap();
    assert_eq!(query, "helloworld");
}

#[test]
fn unknown_option_is_invalid_regardless_of_the_rest() {
    let a = args(&["prog", "-x", "some/dir", "needle"]);
    assert_eq!(Config::resolve(&a, true).err(), Some(ArgumentError::InvalidOption));
    assert_eq!(Config::resolve(&a, false).err(), Some(ArgumentError::InvalidOption));
}

#[test]
fn unreadable_root_is_path_not_found() {
    let a = args(&["prog", "some/dir", "needle"]);
    assert_eq!(Config::resolve(&a, false).err(), Some(ArgumentError::PathNotFound));
}

#[test]
fn new_accepts_an_existing_root() {
    let a = args(&["prog", ".", "needle"]);
    let c = Config::new(&a).unwrap();
    assert_eq!(c.path, ".");
    assert_eq!(c.query, "needle");
}

#[test]
fn new_rejects_a_nonexistent_root() {
    let a = args(&["prog", "surely/not/a/real/path/here", "needle"]);
    assert_eq!(Config::new(&a).err(), Some(ArgumentError::PathNotFound));
}

#[test]
fn defaults_are_case_sensitive_non_recursive_quiet() {
    let a = args(&["prog", "some/dir", "needle"]);
    let c = Config::resolve(&a, true).unwrap();
    assert_eq!(c.path, "some/dir");
    assert_eq!(c.query, "needle");
    assert!(c.case_sensitive);
    assert!(!c.recurse);
    assert!(!c.verbose);
    assert!(!c.help);
    assert!(!c.filter);
    assert!(c.filter_for.is_empty());
}

#[test]
fn short_flags_toggle_their_settings() {
    let a = args(&["prog", "-c", "-r", "-v", "some/dir", "needle"]);
    let c = Config::resolve(&a, true).unwrap();
    assert!(!c.case_sensitive);
    assert!(c.recurse);
    assert!(c.verbose);
    assert!(!c.help);
}

#[test]
fn long_flags_match_their_short_spellings() {
    let a = args(&["prog", "--case-insensitive", "--recursive", "--verbose", "--help", "d", "q"]);
    let c = Config::resolve(&a, true).unwrap();
    assert!(!c.case_sensitive);
    assert!(c.recurse);
    assert!(c.verbose);
    assert!(c.help);
}

#[test]
fn duplicate_flags_are_allowed() {
    let a = args(&["prog", "-r", "-r", "some/dir", "needle"]);
    let c = Config::resolve(&a, true).unwrap();
    assert!(c.recurse);
}

#[test]
fn error_messages_name_the_failure() {
    assert_eq!(ArgumentError::MissingPath.message(), "No/invalid path given");
    assert_eq!(ArgumentError::MissingQuery.message(), "No/invalid query given");
    assert_eq!(ArgumentError::InvalidOption.message(), "One or more invalid options.");
    assert_eq!(ArgumentError::PathNotFound.message(), "Invalid path.");
}
