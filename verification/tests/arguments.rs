use genpass3::config::parse_length;
use genpass3::Config;
use genpass3::ConfigError;

fn args(items: &[&str]) -> Vec<String> {
    items.iter().map(|s| s.to_string()).collect()
}

#[test]
fn builds_with_explicit_length() {
    let config = Config::build(&args(&["prog", "20"])).unwrap();
    assert_eq!(config.length(), 20);
}

#[test]
fn defaults_to_sixteen_without_argument() {
    let config = Config::build(&args(&["prog"])).unwrap();
    assert_eq!(config.length(), 16);
}

#[test]
fn defaults_to_sixteen_with_no_arguments() {
    let config = Config::build(&args(&[])).unwrap();
    assert_eq!(config.length(), 16);
}

#[test]
fn accepts_zero_length() {
    let config = Config::build(&args(&["prog", "0"])).unwrap();
    assert_eq!(config.length(), 0);
}

#[test]
fn ignores_arguments_after_the_length() {
    let config = Config::build(&args(&["prog", "7", "9"])).unwrap();
    assert_eq!(config.length(), 7);
}

#[test]
fn rejects_non_numeric_length() {
    let result = Config::build(&args(&["prog", "abc"]));
    assert!(matches!(result, Err(ConfigError::InvalidLength)));
}

#[test]
fn rejects_empty_length() {
    let result = Config::build(&args(&["prog", ""]));
    assert!(matches!(result, Err(ConfigError::InvalidLength)));
}

#[test]
fn rejects_signed_length() {
    assert!(Config::build(&args(&["prog", "-5"])).is_err());
    assert!(Config::build(&args(&["prog", "+20"])).is_err());
}

#[test]
fn rejects_overflowing_length() {
    let result = Config::build(&args(&["prog", "99999999999999999999999999"]));
    assert!(matches!(result, Err(ConfigError::InvalidLength)));
}

#[test]
fn parses_exact_values() {
    assert_eq!(parse_length("123"), Ok(123));
    assert_eq!(parse_length("007"), Ok(7));
    assert_eq!(parse_length("16"), Ok(16));
}

#[test]
fn parses_largest_length() {
    let max = usize::MAX.to_string();
    assert_eq!(parse_length(&max), Ok(usize::MAX));
}

#[test]
fn rejects_length_just_past_largest() {
    // usize::MAX with a trailing zero is ten times too large.
    let too_big = format!("{}0", usize::MAX);
    assert_eq!(parse_length(&too_big), Err(ConfigError::InvalidLength));
}

#[test]
fn rejects_inner_non_digits() {
    assert_eq!(parse_length("1 2"), Err(ConfigError::InvalidLength));
    assert_eq!(parse_length("12a"), Err(ConfigError::InvalidLength));
    assert_eq!(parse_length("a12"), Err(ConfigError::InvalidLength));
}
