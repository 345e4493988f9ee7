use minigrep::{Config, ConfigError};

fn literal_config(query: &str, case_sensitive: bool, start: usize, end: usize) -> Config {
    let mut config = Config::new(String::from(query), String::from("file"), case_sensitive).unwrap();
    config.set_is_regex(false);
    config.set_is_substitute(false);
    config.set_substitute(String::from(""));
    config.set_show_line_number(false);
    config.set_recursive(false);
    config.set_start_matching_at(start);
    config.set_end_matching_after(end);
    config
}

#[test]
fn config_test_case_insensitive_config() {
    let mut config = Config::new(String::from("TeST"), String::from("file"), false).unwrap();
    config.set_is_regex(false);
    config.set_is_substitute(false);
    config.set_substitute(String::from(""));
    config.set_show_line_number(false);
    config.set_recursive(true);
    config.set_start_matching_at(0);
    config.set_end_matching_after(0);
    assert_eq!(config.query(), "test");
}

#[test]
fn config_test_case_sensitive_config() {
    let mut config = Config::new(String::from("TeST"), String::from("file"), true).unwrap();
    config.set_is_regex(false);
    config.set_is_substitute(false);
    config.set_substitute(String::from(""));
    config.set_show_line_number(false);
    config.set_recursive(false);
    config.set_start_matching_at(1234567891234);
    config.set_end_matching_after(1234567890123456780);
    assert_eq!(config.query(), "TeST");
}

#[test]
fn config_test_case_do_match_start_and_end_set() {
    let config = literal_config("TeST", true, 3, 7);
    // check_cases[0] stands for line one, and so on
    let check_cases = vec![false, false, true, true, true, true, true, false];
    for (line_counter, result) in check_cases.into_iter().enumerate() {
        assert_eq!(config.do_match(&(line_counter + 1)), result);
    }
}

#[test]
fn test_case_do_match_start_set() {
    let config = literal_config("TeST", true, 3, 0);
    let check_cases = vec![false, false, true, true, true, true, true, true];
    for (line_counter, result) in check_cases.into_iter().enumerate() {
        assert_eq!(config.do_match(&(line_counter + 1)), result);
    }
}

#[test]
fn test_case_do_match_start_greater_end() {
    let config = literal_config("TeST", true, 4, 3);
    let check_cases = vec![false, false, false, false, false, false, false, false];
    for (line_counter, result) in check_cases.into_iter().enumerate() {
        assert_eq!(config.do_match(&(line_counter + 1)), result);
    }
}

#[test]
fn test_case_do_match_end_set() {
    // the window's end is inclusive: lines one to three are in it
    let config = literal_config("TeST", true, 0, 3);
    let check_cases = vec![true, true, true, false, false, false, false, false];
    for (line_counter, result) in check_cases.into_iter().enumerate() {
        assert_eq!(config.do_match(&(line_counter + 1)), result);
    }
}

#[test]
fn window_three_to_seven() {
    let config = literal_config("x", true, 3, 7);
    for line in 1..=2usize {
        assert!(!config.do_match(&line));
    }
    for line in 3..=7usize {
        assert!(config.do_match(&line));
    }
    for line in [8usize, 9, 100, usize::MAX] {
        assert!(!config.do_match(&line));
    }
}

#[test]
fn window_from_three_unbounded() {
    let config = literal_config("x", true, 3, 0);
    assert!(!config.do_match(&1));
    assert!(!config.do_match(&2));
    for line in [3usize, 4, 1000, usize::MAX] {
        assert!(config.do_match(&line));
    }
}

#[test]
fn window_up_to_three() {
    let config = literal_config("x", true, 0, 3);
    for line in 1..=3usize {
        assert!(config.do_match(&line));
    }
    for line in [4usize, 5, 1000, usize::MAX] {
        assert!(!config.do_match(&line));
    }
}

#[test]
fn window_unset_holds_every_line() {
    let config = literal_config("x", true, 0, 0);
    for line in [0usize, 1, 2, 99, usize::MAX] {
        assert!(config.do_match(&line));
    }
}

#[test]
fn window_inverted_is_empty() {
    let config = literal_config("x", true, 9, 2);
    for line in [1usize, 2, 5, 9, 10, usize::MAX] {
        assert!(!config.do_match(&line));
    }
}

#[test]
fn window_single_line() {
    let config = literal_config("x", true, 5, 5);
    assert!(!config.do_match(&4));
    assert!(config.do_match(&5));
    assert!(!config.do_match(&6));
}

#[test]
fn invalid_pattern_is_rejected_at_construction() {
    let r = Config::new(String::from("foo(bar"), String::from("file"), true);
    assert!(matches!(r, Err(ConfigError::InvalidPattern)));
    let r = Config::new(String::from("a[b"), String::from("file"), false);
    assert!(matches!(r, Err(ConfigError::InvalidPattern)));
}

#[test]
fn pattern_is_validated_even_for_literal_matching() {
    // literal matching would accept "(", but construction compiles it anyway
    let r = Config::new(String::from("("), String::from("file"), true);
    assert!(r.is_err());
}

#[test]
fn new_sets_defaults() {
    let config = Config::new(String::from("abc"), String::from("some/file.txt"), true).unwrap();
    assert_eq!(config.query(), "abc");
    assert_eq!(config.filename(), "some/file.txt");
    assert!(config.case_sensitive());
    assert!(!config.is_regex());
    assert!(!config.is_substitute());
    assert_eq!(config.substitute(), "");
    assert!(!config.show_line_number());
    assert!(!config.recursive());
    assert_eq!(config.regex().as_str(), "abc");
}

#[test]
fn folding_happens_once_at_construction() {
    let mut config = Config::new(String::from("HeLLo"), String::from("f"), false).unwrap();
    assert_eq!(config.query(), "hello");
    assert!(!config.case_sensitive());
    // none of the setters touches the query or the case handling
    config.set_is_regex(true);
    config.set_is_substitute(true);
    config.set_substitute(String::from("X"));
    config.set_show_line_number(true);
    config.set_recursive(true);
    config.set_start_matching_at(2);
    config.set_end_matching_after(4);
    assert_eq!(config.query(), "hello");
    assert!(!config.case_sensitive());
    // the regex keeps the raw pattern text
    assert_eq!(config.regex().as_str(), "HeLLo");

    let sensitive = Config::new(String::from("HeLLo"), String::from("f"), true).unwrap();
    assert_eq!(sensitive.query(), "HeLLo");
    assert!(sensitive.case_sensitive());
}

#[test]
fn setters_change_their_own_field() {
    let mut config = Config::new(String::from("q"), String::from("f"), true).unwrap();
    config.set_is_regex(true);
    assert!(config.is_regex());
    config.set_is_substitute(true);
    assert!(config.is_substitute());
    config.set_substitute(String::from("$1"));
    assert_eq!(config.substitute(), "$1");
    config.set_show_line_number(true);
    assert!(config.show_line_number());
    config.set_recursive(true);
    assert!(config.recursive());
    config.set_start_matching_at(3);
    assert!(!config.do_match(&2));
    assert!(config.do_match(&3));
    config.set_end_matching_after(4);
    assert!(!config.do_match(&5));
}
