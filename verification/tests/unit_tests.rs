use dirsize::unit::{get_unit, Unit};

fn args(list: &[&str]) -> Vec<String> {
    list.iter().map(|s| s.to_string()).collect()
}

#[test]
fn parses_each_keyword() {
    assert_eq!(Unit::from_str("byte"), Ok(Unit::Byte));
    assert_eq!(Unit::from_str("kilo"), Ok(Unit::Kilobyte));
    assert_eq!(Unit::from_str("mega"), Ok(Unit::Megabyte));
    assert_eq!(Unit::from_str("giga"), Ok(Unit::Gigabyte));
}

#[test]
fn factors_of_each_unit() {
    assert_eq!(Unit::get_factor(&Ok(Unit::Byte)), 1);
    assert_eq!(Unit::get_factor(&Ok(Unit::Kilobyte)), 1024);
    assert_eq!(Unit::get_factor(&Ok(Unit::Megabyte)), 1_048_576);
    assert_eq!(Unit::get_factor(&Ok(Unit::Gigabyte)), 1_073_741_824);
}

#[test]
fn unit_token_case_insensitive() {
    for token in ["MEGA", "Mega", "mega", "mEgA"] {
        let parsed = Unit::from_str(token);
        assert_eq!(parsed, Ok(Unit::Megabyte));
        assert_eq!(Unit::get_factor(&parsed), 1_048_576);
    }
    assert_eq!(Unit::from_str("KILO"), Ok(Unit::Kilobyte));
    assert_eq!(Unit::from_str("Byte"), Ok(Unit::Byte));
    assert_eq!(Unit::from_str("GiGa"), Ok(Unit::Gigabyte));
}

#[test]
fn unrecognized_token_is_reported() {
    let parsed = Unit::from_str("terra");
    assert_eq!(parsed, Err("Invalid unit: terra".to_string()));
}

#[test]
fn unrecognized_token_factor_matches_absent_token() {
    let with_bad_token = get_unit(&args(&["prog", "dir", "terra"]));
    assert!(with_bad_token.is_err());
    let without_token = get_unit(&args(&["prog", "dir"]));
    assert_eq!(without_token, Ok(Unit::Byte));
    assert_eq!(
        Unit::get_factor(&with_bad_token),
        Unit::get_factor(&without_token)
    );
    assert_eq!(Unit::get_factor(&with_bad_token), 1);
}

#[test]
fn empty_token_is_invalid() {
    assert_eq!(Unit::from_str(""), Err("Invalid unit: ".to_string()));
}

#[test]
fn near_keywords_are_invalid() {
    assert_eq!(Unit::from_str("bytes"), Err("Invalid unit: bytes".to_string()));
    assert_eq!(Unit::from_str("kil"), Err("Invalid unit: kil".to_string()));
    assert_eq!(Unit::from_str("gigaa"), Err("Invalid unit: gigaa".to_string()));
}

#[test]
fn get_unit_reads_the_third_argument() {
    assert_eq!(get_unit(&args(&["prog", "dir", "kilo"])), Ok(Unit::Kilobyte));
    assert_eq!(get_unit(&args(&["prog", "dir", "GIGA"])), Ok(Unit::Gigabyte));
}

#[test]
fn get_unit_defaults_without_exactly_three_arguments() {
    assert_eq!(get_unit(&args(&["prog"])), Ok(Unit::Byte));
    assert_eq!(get_unit(&args(&["prog", "dir"])), Ok(Unit::Byte));
    assert_eq!(get_unit(&args(&["prog", "dir", "kilo", "extra"])), Ok(Unit::Byte));
}
