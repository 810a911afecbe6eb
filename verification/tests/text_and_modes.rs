use get621::common::{check_status, output_mode_check, valid_parse, OutputMode, PostMapMode};
use get621::error::Error;
use get621::text::{i64_to_string, join_all, parse_u64, split_commas, split_whitespace_tokens, str_eq, str_starts_with, u64_to_string};

#[test]
fn decimal_rendering_exact() {
    assert_eq!(u64_to_string(0), "0");
    assert_eq!(u64_to_string(7), "7");
    assert_eq!(u64_to_string(320), "320");
    assert_eq!(u64_to_string(u64::MAX), "18446744073709551615");
    assert_eq!(i64_to_string(0), "0");
    assert_eq!(i64_to_string(-1), "-1");
    assert_eq!(i64_to_string(42), "42");
    assert_eq!(i64_to_string(i64::MIN), "-9223372036854775808");
}

#[test]
fn parse_u64_accepts_numerals() {
    assert_eq!(parse_u64("0"), Some(0));
    assert_eq!(parse_u64("123"), Some(123));
    assert_eq!(parse_u64("+123"), Some(123));
    assert_eq!(parse_u64("18446744073709551615"), Some(u64::MAX));
}

#[test]
fn parse_u64_rejects_everything_else() {
    assert_eq!(parse_u64(""), None);
    assert_eq!(parse_u64("+"), None);
    assert_eq!(parse_u64("12a"), None);
    assert_eq!(parse_u64("-3"), None);
    assert_eq!(parse_u64("1 2"), None);
    // One past the largest value overflows.
    assert_eq!(parse_u64("18446744073709551616"), None);
}

#[test]
fn valid_parse_reports_the_given_message() {
    assert_eq!(valid_parse("17", "Must be a positive integer."), Ok(()));
    assert_eq!(
        valid_parse("seventeen", "Must be a positive integer."),
        Err(String::from("Must be a positive integer."))
    );
}

#[test]
fn output_mode_check_accepts_the_three_names() {
    assert_eq!(output_mode_check(String::from("id")), Ok(()));
    assert_eq!(output_mode_check(String::from("raw")), Ok(()));
    assert_eq!(output_mode_check(String::from("verbose")), Ok(()));
    assert_eq!(
        output_mode_check(String::from("loud")),
        Err(String::from("Invalid output mode."))
    );
    assert_eq!(
        output_mode_check(String::from("")),
        Err(String::from("Invalid output mode."))
    );
}

#[test]
fn output_mode_from_name() {
    assert_eq!(OutputMode::from_name("id"), Some(OutputMode::Id));
    assert_eq!(OutputMode::from_name("raw"), Some(OutputMode::Raw));
    assert_eq!(OutputMode::from_name("verbose"), Some(OutputMode::Verbose));
    assert_eq!(OutputMode::from_name("Verbose"), None);
}

#[test]
fn post_map_mode_from_flags() {
    assert_eq!(PostMapMode::from_flags(true, false), PostMapMode::Parents);
    assert_eq!(PostMapMode::from_flags(false, true), PostMapMode::Children);
    assert_eq!(PostMapMode::from_flags(false, false), PostMapMode::Identity);
}

#[test]
fn check_status_splits_on_the_success_range() {
    assert_eq!(check_status(200), Ok(()));
    assert_eq!(check_status(204), Ok(()));
    assert_eq!(check_status(299), Ok(()));
    assert_eq!(check_status(199), Err(Error::Http(199)));
    assert_eq!(check_status(301), Err(Error::Http(301)));
    assert_eq!(check_status(404), Err(Error::Http(404)));
    assert_eq!(check_status(500), Err(Error::Http(500)));
}

#[test]
fn error_messages_exact() {
    assert_eq!(Error::Network(String::from("x")).message(), "Network error: x");
    assert_eq!(Error::Http(404).message(), "HTTP error: 404");
    assert_eq!(
        Error::Serialization(String::from("bad")).message(),
        "Serialization error: bad"
    );
    assert_eq!(
        Error::AboveLimit(321, 320).message(),
        "321 is above the max limit for ordered queries (320)"
    );
    assert_eq!(Error::PoolNotFound.message(), "Pool not found");
    assert_eq!(
        Error::AuthTokenNotFound.message(),
        "Couldn't get the authenticity token"
    );
    assert_eq!(
        Error::IqdbQueryError.message(),
        "The IQDB query failed or returned unknown results"
    );
    assert_eq!(Error::MissingFileUrl.message(), "A post is missing a file URL");
    assert_eq!(Error::FileSystem(String::from("denied")).message(), "IO error: denied");
}

#[test]
fn string_helpers() {
    assert!(str_eq("abc", "abc"));
    assert!(!str_eq("abc", "abd"));
    assert!(str_starts_with("order:score", "order:"));
    assert!(!str_starts_with("orde", "order:"));
    assert_eq!(join_all(&vec![String::from("a"), String::from("b")], " "), "a b");
    assert_eq!(join_all(&Vec::new(), " "), "");
    assert_eq!(
        split_whitespace_tokens(" red  fox\t"),
        vec![String::from("red"), String::from("fox")]
    );
    assert_eq!(split_whitespace_tokens(""), Vec::<String>::new());
    assert_eq!(
        split_commas("1,2,,3"),
        vec![String::from("1"), String::from("2"), String::from(""), String::from("3")]
    );
    assert_eq!(split_commas(""), vec![String::from("")]);
}
