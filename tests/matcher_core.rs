use detective::dispatch::{apply_negation, evaluate, DetectiveType};
use detective::error::CustomError;
use detective::field::{resolve, JsonKind};
use detective::matcher_core::{
    boolean, has_field, ip_address, is_empty, is_type, mac_address, nanos_to_seconds, regex, search,
    string_contains_all, string_contains_any, string_equal_to, timestamp_rfc3339, timestamp_unix,
    timestamp_unix_nano, uuid, MAC_PATTERN,
};
use detective::matcher_numeric::FloatOrder;

const SAMPLE_JSON: &str = r#"{
    "string_field": "hello world",
    "empty_string": "",
    "number_int": 100,
    "bool_true": true,
    "bool_false": false,
    "null_field": null,
    "empty_array": [],
    "array_field": [1, 2, 3],
    "empty_object": {},
    "object_field": {"inner": {"value": "deep"}},
    "ipv4": "prefix 10.0.0.1 suffix",
    "ipv6": "addr 2001:db8::1 here",
    "no_ip": "nothing to see",
    "mac": "AA:BB:CC:DD:EE:FF",
    "mac_hyphen": "aa-bb-cc-dd-ee-ff",
    "mac_padded": "xxAA:BB:CC:DD:EE:FFxx",
    "uuid": "123e4567-e89b-12d3-a456-426614174000",
    "uuid_mixed": "123e4567:e89b12d3-a456:426614174000",
    "uuid_short": "123e4567-e89b-12d3-a456-42661417400",
    "rfc3339": "2023-01-02T03:04:05Z",
    "not_rfc3339": "2023-01-02 03:04",
    "unix": 1700000000,
    "unix_text": "1700000000",
    "unix_nano": 1700000000000000000,
    "unix_huge": 9223372036854775807,
    "not_ts": "yesterday"
}"#;

fn no_numbers(_a: &str, _b: &str) -> Option<FloatOrder> {
    None
}

fn data() -> Vec<u8> {
    SAMPLE_JSON.as_bytes().to_vec()
}

fn strings(args: &[&str]) -> Vec<String> {
    args.iter().map(|a| a.to_string()).collect()
}

fn eval(kind: DetectiveType, path: &str, args: &[&str], negate: bool) -> Result<bool, CustomError> {
    evaluate(kind, &data(), &path.to_string(), &strings(args), negate, no_numbers)
}

fn call(
    f: fn(&Vec<u8>, &String, &Vec<String>, bool) -> Result<bool, CustomError>,
    path: &str,
    args: &[&str],
) -> Result<bool, CustomError> {
    f(&data(), &path.to_string(), &strings(args), false)
}

#[test]
fn equal_to_integer_field_and_negation() {
    assert!(matches!(eval(DetectiveType::StringEqualTo, "number_int", &["100"], false), Ok(true)));
    assert!(matches!(eval(DetectiveType::StringEqualTo, "number_int", &["100"], true), Ok(false)));
}

#[test]
fn equal_to_is_exact_and_unquoted() {
    assert!(matches!(call(string_equal_to, "string_field", &["hello world"]), Ok(true)));
    assert!(matches!(call(string_equal_to, "string_field", &["\"hello world\""]), Ok(false)));
    assert!(matches!(call(string_equal_to, "string_field", &["Hello world"]), Ok(false)));
    assert!(matches!(call(string_equal_to, "bool_true", &["true"]), Ok(true)));
    assert!(matches!(call(string_equal_to, "object_field.inner.value", &["deep"]), Ok(true)));
}

#[test]
fn contains_any_and_all() {
    assert!(matches!(call(string_contains_any, "string_field", &["xyz", "world"]), Ok(true)));
    assert!(matches!(call(string_contains_any, "string_field", &["xyz", "WORLD"]), Ok(false)));
    assert!(matches!(call(string_contains_all, "string_field", &["hello", "world"]), Ok(true)));
    assert!(matches!(call(string_contains_all, "string_field", &["hello", "there"]), Ok(false)));
}

#[test]
fn contains_without_arguments_is_an_arity_error() {
    assert!(matches!(call(string_contains_all, "string_field", &[]), Err(CustomError::Error(_))));
    assert!(matches!(call(string_contains_any, "string_field", &[]), Err(CustomError::Error(_))));
    assert!(matches!(eval(DetectiveType::StringContainsAll, "string_field", &[], true), Err(CustomError::Error(_))));
}

#[test]
fn is_empty_by_kind() {
    assert!(matches!(call(is_empty, "null_field", &[]), Ok(true)));
    assert!(matches!(call(is_empty, "empty_array", &[]), Ok(true)));
    assert!(matches!(call(is_empty, "empty_string", &[]), Ok(true)));
    assert!(matches!(call(is_empty, "string_field", &[]), Ok(false)));
    assert!(matches!(call(is_empty, "array_field", &[]), Ok(false)));
    assert!(matches!(call(is_empty, "empty_object", &[]), Ok(false)));
    assert!(matches!(call(is_empty, "number_int", &[]), Ok(false)));
    assert!(matches!(call(is_empty, "bool_false", &[]), Ok(false)));
    assert!(matches!(call(is_empty, "does_not_exist", &[]), Err(CustomError::NotFound(_))));
}

#[test]
fn ip_addresses_are_found_anywhere() {
    assert!(matches!(eval(DetectiveType::Ipv4Address, "ipv4", &[], false), Ok(true)));
    assert!(matches!(eval(DetectiveType::Ipv4Address, "no_ip", &[], false), Ok(false)));
    assert!(matches!(eval(DetectiveType::Ipv6Address, "ipv6", &[], false), Ok(true)));
    assert!(matches!(eval(DetectiveType::Ipv6Address, "no_ip", &[], false), Ok(false)));
}

#[test]
fn ip_address_rejects_other_kinds() {
    let r = ip_address(DetectiveType::MacAddress, &data(), &"ipv4".to_string(), &vec![], false);
    assert!(matches!(r, Err(CustomError::MatchError(_))));
}

#[test]
fn mac_address_is_anchored() {
    assert!(matches!(call(mac_address, "mac", &[]), Ok(true)));
    assert!(matches!(call(mac_address, "mac_hyphen", &[]), Ok(true)));
    assert!(matches!(call(mac_address, "mac_padded", &[]), Ok(false)));
}

#[test]
fn uuid_accepts_mixed_separators_and_is_anchored() {
    assert!(matches!(call(uuid, "uuid", &[]), Ok(true)));
    assert!(matches!(call(uuid, "uuid_mixed", &[]), Ok(true)));
    assert!(matches!(call(uuid, "uuid_short", &[]), Ok(false)));
    assert!(matches!(call(uuid, "string_field", &[]), Ok(false)));
}

#[test]
fn timestamps() {
    assert!(matches!(call(timestamp_rfc3339, "rfc3339", &[]), Ok(true)));
    assert!(matches!(call(timestamp_rfc3339, "not_rfc3339", &[]), Ok(false)));
    assert!(matches!(call(timestamp_unix, "unix", &[]), Ok(true)));
    assert!(matches!(call(timestamp_unix, "unix_text", &[]), Ok(true)));
    assert!(matches!(call(timestamp_unix, "unix_huge", &[]), Ok(false)));
    assert!(matches!(call(timestamp_unix_nano, "unix_nano", &[]), Ok(true)));
    assert!(matches!(call(timestamp_unix_nano, "unix_huge", &[]), Ok(true)));
}

#[test]
fn timestamp_unix_over_text_is_false() {
    assert!(matches!(call(timestamp_unix, "not_ts", &[]), Ok(false)));
    assert!(matches!(call(timestamp_unix_nano, "not_ts", &[]), Ok(false)));
    assert!(matches!(call(timestamp_unix, "object_field", &[]), Ok(false)));
}

#[test]
fn nanoseconds_truncate_toward_zero() {
    assert_eq!(nanos_to_seconds(1_999_999_999), 1);
    assert_eq!(nanos_to_seconds(-1_999_999_999), -1);
    assert_eq!(nanos_to_seconds(-1_000_000_000), -1);
    assert_eq!(nanos_to_seconds(0), 0);
    assert_eq!(nanos_to_seconds(i64::MIN), -9_223_372_036);
    assert_eq!(nanos_to_seconds(i64::MAX), 9_223_372_036);
}

#[test]
fn boolean_is_strict() {
    let f = |path: &str, expected: bool| boolean(&data(), &path.to_string(), &vec![], false, expected);
    assert!(matches!(f("bool_true", true), Ok(true)));
    assert!(matches!(f("bool_true", false), Ok(false)));
    assert!(matches!(f("bool_false", false), Ok(true)));
    assert!(matches!(f("number_int", true), Err(CustomError::TypeMismatch(_))));
    assert!(matches!(f("string_field", true), Err(CustomError::TypeMismatch(_))));
    assert!(matches!(eval(DetectiveType::BooleanFalse, "bool_false", &[], true), Ok(false)));
}

#[test]
fn has_field_reports_existence() {
    assert!(matches!(call(has_field, "string_field", &[]), Ok(true)));
    assert!(matches!(call(has_field, "null_field", &[]), Ok(true)));
    assert!(matches!(call(has_field, "object_field.inner", &[]), Ok(true)));
    assert!(matches!(call(has_field, "does_not_exist", &[]), Ok(false)));
}

#[test]
fn undecodable_document_is_a_generic_error() {
    let bad = vec![0xff, 0xfe, b'{', b'}'];
    let r = has_field(&bad, &"a".to_string(), &vec![], false);
    assert!(matches!(r, Err(CustomError::Error(_))));
    let r = string_equal_to(&bad, &"a".to_string(), &vec!["x".to_string()], false);
    assert!(matches!(r, Err(CustomError::Error(_))));
}

#[test]
fn is_type_by_name() {
    assert!(matches!(call(is_type, "string_field", &["string"]), Ok(true)));
    assert!(matches!(call(is_type, "number_int", &["number"]), Ok(true)));
    assert!(matches!(call(is_type, "bool_true", &["boolean"]), Ok(true)));
    assert!(matches!(call(is_type, "bool_false", &["bool"]), Ok(true)));
    assert!(matches!(call(is_type, "array_field", &["array"]), Ok(true)));
    assert!(matches!(call(is_type, "empty_object", &["object"]), Ok(true)));
    assert!(matches!(call(is_type, "null_field", &["null"]), Ok(true)));
    assert!(matches!(call(is_type, "string_field", &["number"]), Ok(false)));
    assert!(matches!(call(is_type, "string_field", &["text"]), Err(CustomError::MatchError(_))));
}

#[test]
fn regex_searches_unanchored() {
    assert!(matches!(call(regex, "string_field", &["o w"]), Ok(true)));
    assert!(matches!(call(regex, "string_field", &["^world"]), Ok(false)));
    assert!(matches!(call(regex, "string_field", &["("]), Err(CustomError::RegexError { .. })));
}

#[test]
fn search_uses_the_pattern() {
    assert!(matches!(search(MAC_PATTERN, "AA:BB:CC:DD:EE:FF"), Ok(true)));
    assert!(matches!(search(MAC_PATTERN, "AA:BB:CC:DD:EE"), Ok(false)));
}

#[test]
fn single_argument_predicates_share_the_arity_error() {
    let kinds = [
        DetectiveType::StringEqualTo,
        DetectiveType::IsType,
        DetectiveType::Regex,
        DetectiveType::NumericEqualTo,
        DetectiveType::NumericGreaterThan,
        DetectiveType::NumericGreaterEqual,
        DetectiveType::NumericLessThan,
        DetectiveType::NumericLessEqual,
    ];
    for kind in kinds {
        assert!(matches!(eval(kind, "string_field", &[], false), Err(CustomError::Error(_))), "{:?}", kind);
        assert!(matches!(eval(kind, "string_field", &["a", "b"], false), Err(CustomError::Error(_))), "{:?}", kind);
        assert!(matches!(eval(kind, "does_not_exist", &["a", "b"], true), Err(CustomError::Error(_))), "{:?}", kind);
    }
}

#[test]
fn unresolved_path_is_not_found_except_for_has_field() {
    let cases: [(DetectiveType, &[&str]); 13] = [
        (DetectiveType::StringEqualTo, &["a"]),
        (DetectiveType::StringContainsAny, &["a"]),
        (DetectiveType::Ipv4Address, &[]),
        (DetectiveType::MacAddress, &[]),
        (DetectiveType::Uuid, &[]),
        (DetectiveType::TimestampRfc3339, &[]),
        (DetectiveType::TimestampUnix, &[]),
        (DetectiveType::TimestampUnixNano, &[]),
        (DetectiveType::BooleanTrue, &[]),
        (DetectiveType::IsEmpty, &[]),
        (DetectiveType::IsType, &["string"]),
        (DetectiveType::Regex, &["a"]),
        (DetectiveType::NumericEqualTo, &["1"]),
    ];
    for (kind, args) in cases {
        assert!(matches!(eval(kind, "does_not_exist", args, false), Err(CustomError::NotFound(_))), "{:?}", kind);
    }
    assert!(matches!(eval(DetectiveType::HasField, "does_not_exist", &[], false), Ok(false)));
    assert!(matches!(eval(DetectiveType::HasField, "does_not_exist", &[], true), Ok(true)));
}

#[test]
fn resolve_reads_kind_text_and_length() {
    let f = resolve(&data(), &"array_field".to_string()).ok().unwrap();
    assert_eq!(f.kind, JsonKind::Array);
    assert_eq!(f.len, 3);
    assert_eq!(f.text, "[1, 2, 3]");
    let f = resolve(&data(), &"null_field".to_string()).ok().unwrap();
    assert_eq!(f.kind, JsonKind::Null);
    assert_eq!(f.text, "");
}

#[test]
fn negation_flips_only_verdicts() {
    assert!(matches!(apply_negation(Ok(true), true), Ok(false)));
    assert!(matches!(apply_negation(Ok(false), false), Ok(false)));
    assert!(matches!(apply_negation(Err(CustomError::MissingMatchType(7)), true), Err(CustomError::MissingMatchType(7))));
}

#[test]
fn codes_map_to_kinds() {
    assert!(matches!(DetectiveType::from_code(0), Ok(DetectiveType::StringEqualTo)));
    assert!(matches!(DetectiveType::from_code(13), Ok(DetectiveType::HasField)));
    assert!(matches!(DetectiveType::from_code(20), Ok(DetectiveType::NumericLessEqual)));
    assert!(matches!(DetectiveType::from_code(21), Err(CustomError::MissingMatchType(21))));
    assert!(matches!(DetectiveType::from_code(-1), Err(CustomError::MissingMatchType(-1))));
}

#[test]
fn unix_seconds_are_valid_exactly_within_chrono_range() {
    let doc = br#"{"max": 8210266876799, "past_max": 8210266876800, "min": -8334601228800, "before_min": -8334601228801}"#.to_vec();
    let run = |path: &str| timestamp_unix(&doc, &path.to_string(), &vec![], false);
    assert!(matches!(run("max"), Ok(true)));
    assert!(matches!(run("past_max"), Ok(false)));
    assert!(matches!(run("min"), Ok(true)));
    assert!(matches!(run("before_min"), Ok(false)));
}
