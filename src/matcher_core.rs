use crate::dispatch::DetectiveType;
use crate::error::{arity_error, outcome, CustomError, ErrorClass, Outcome};
use crate::field::{field_exists, parse_field, path_exists, resolve, with_field, Field, FieldModel, JsonKind};
use chrono::TimeZone;
use vstd::prelude::*;

verus! {

/// The arguments as texts.
pub open spec fn texts(args: Seq<String>) -> Seq<Seq<char>> {
    args.map_values(|a: String| a@)
}

/// Whether `needle` occurs in `hay` as a contiguous run.
pub open spec fn is_substring(needle: Seq<char>, hay: Seq<char>) -> bool {
    exists|k: int| 0 <= k && k + needle.len() <= hay.len() && #[trigger] hay.subrange(k, k + needle.len()) == needle
}

/// Relies on `str::contains`: true iff `needle` matches a sub-slice of `hay`.
#[verifier::external_body]
fn str_contains(hay: &str, needle: &str) -> (r: bool)
    ensures
        r == is_substring(needle@, hay@),
{
    hay.contains(needle)
}

/// Some needle occurs in `text`.
pub open spec fn contains_any(needles: Seq<Seq<char>>, text: Seq<char>) -> bool {
    exists|i: int| 0 <= i < needles.len() && is_substring(#[trigger] needles[i], text)
}

/// Every needle occurs in `text`.
pub open spec fn contains_all(needles: Seq<Seq<char>>, text: Seq<char>) -> bool {
    forall|i: int| 0 <= i < needles.len() ==> is_substring(#[trigger] needles[i], text)
}

pub open spec fn string_equal_to_spec(data: Seq<u8>, path: Seq<char>, args: Seq<Seq<char>>) -> Outcome {
    if args.len() != 1 {
        Outcome::Failure(ErrorClass::Generic)
    } else {
        with_field(data, path, |f: FieldModel| Outcome::Verdict(f.text == args[0]))
    }
}

pub open spec fn string_contains_any_spec(data: Seq<u8>, path: Seq<char>, args: Seq<Seq<char>>) -> Outcome {
    if args.len() == 0 {
        Outcome::Failure(ErrorClass::Generic)
    } else {
        with_field(
            data,
            path,
            |f: FieldModel| Outcome::Verdict(contains_any(args, f.text)),
        )
    }
}

pub open spec fn string_contains_all_spec(data: Seq<u8>, path: Seq<char>, args: Seq<Seq<char>>) -> Outcome {
    if args.len() == 0 {
        Outcome::Failure(ErrorClass::Generic)
    } else {
        with_field(
            data,
            path,
            |f: FieldModel| Outcome::Verdict(contains_all(args, f.text)),
        )
    }
}

/// The field, rendered as text, equals the single argument exactly.
pub fn string_equal_to(data: &Vec<u8>, path: &String, args: &Vec<String>, _negate: bool) -> (r: Result<bool, CustomError>)
    ensures
        outcome(r) == string_equal_to_spec(data@, path@, texts(args@)),
{
    if args.len() != 1 {
        return Err(arity_error("string_equal_to requires exactly 1 argument"));
    }
    let field: String = parse_field(data, path)?;
    Ok(field == args[0])
}

/// The field, rendered as text, contains at least one argument.
pub fn string_contains_any(data: &Vec<u8>, path: &String, args: &Vec<String>, _negate: bool) -> (r: Result<bool, CustomError>)
    ensures
        outcome(r) == string_contains_any_spec(data@, path@, texts(args@)),
{
    if args.len() == 0 {
        return Err(arity_error("string_contains_any requires at least 1 argument"));
    }
    let field: String = parse_field(data, path)?;
    let ghost a = texts(args@);
    let mut i: usize = 0;
    while i < args.len()
        invariant
            0 <= i <= args.len(),
            a == texts(args@),
            string_contains_any_spec(data@, path@, a) == Outcome::Verdict(contains_any(a, field@)),
            forall|j: int| 0 <= j < i ==> !is_substring(#[trigger] a[j], field@),
        decreases args.len() - i,
    {
        if str_contains(field.as_str(), args[i].as_str()) {
            assert(a[i as int] == args@[i as int]@);
            assert(is_substring(a[i as int], field@));
            return Ok(true);
        }
        i += 1;
    }
    Ok(false)
}

/// The field, rendered as text, contains every argument.
pub fn string_contains_all(data: &Vec<u8>, path: &String, args: &Vec<String>, _negate: bool) -> (r: Result<bool, CustomError>)
    ensures
        outcome(r) == string_contains_all_spec(data@, path@, texts(args@)),
{
    if args.len() == 0 {
        return Err(arity_error("string_contains_all requires at least 1 argument"));
    }
    let field: String = parse_field(data, path)?;
    let ghost a = texts(args@);
    let mut i: usize = 0;
    while i < args.len()
        invariant
            0 <= i <= args.len(),
            a == texts(args@),
            string_contains_all_spec(data@, path@, a) == Outcome::Verdict(contains_all(a, field@)),
            forall|j: int| 0 <= j < i ==> is_substring(#[trigger] a[j], field@),
        decreases args.len() - i,
    {
        if !str_contains(field.as_str(), args[i].as_str()) {
            assert(a[i as int] == args@[i as int]@);
            assert(!is_substring(a[i as int], field@));
            return Ok(false);
        }
        i += 1;
    }
    Ok(true)
}

/// Whether `regex::Regex::new` accepts `pattern`.
pub uninterp spec fn regex_compiles(pattern: Seq<char>) -> bool;

/// Whether the compiled `pattern` matches somewhere in `text`, as
/// `regex::Regex::is_match` reports it.
pub uninterp spec fn regex_finds(pattern: Seq<char>, text: Seq<char>) -> bool;

/// Relies on `regex::Regex::new`, which compiles `pattern` or returns its
/// error (rendered here as text), and on `regex::Regex::is_match`, which
/// searches the whole of `text`.
#[verifier::external_body]
fn regex_search(pattern: &str, text: &str) -> (r: Result<bool, String>)
    ensures
        r is Ok <==> regex_compiles(pattern@),
        r is Ok ==> r->Ok_0 == regex_finds(pattern@, text@),
{
    match regex::Regex::new(pattern) {
        Ok(re) => Ok(re.is_match(text)),
        Err(e) => Err(e.to_string()),
    }
}

/// A search of `text` for `pattern`: a pattern that does not compile is an error.
pub open spec fn search_outcome(pattern: Seq<char>, text: Seq<char>) -> Outcome {
    if regex_compiles(pattern) {
        Outcome::Verdict(regex_finds(pattern, text))
    } else {
        Outcome::Failure(ErrorClass::Pattern)
    }
}

/// Searches `text` for `pattern`, turning a compile error into a library error.
pub fn search(pattern: &str, text: &str) -> (r: Result<bool, CustomError>)
    ensures
        outcome(r) == search_outcome(pattern@, text@),
{
    match regex_search(pattern, text) {
        Ok(b) => Ok(b),
        Err(e) => Err(CustomError::RegexError { source: e }),
    }
}

/// A dotted quad with octets 0 to 255, found anywhere in the text.
pub const IPV4_PATTERN: &'static str = r"(?:\b25[0-5]|\b2[0-4][0-9]|\b[01]?[0-9][0-9]?)(?:\.(?:25[0-5]|2[0-4][0-9]|[01]?[0-9][0-9]?)){3}";

/// An IPv6 address in full or compressed form, with an IPv4 tail or a zone
/// index, found anywhere in the text.
pub const IPV6_PATTERN: &'static str = r"(([0-9a-fA-F]{1,4}:){7,7}[0-9a-fA-F]{1,4}|([0-9a-fA-F]{1,4}:){1,7}:|([0-9a-fA-F]{1,4}:){1,6}:[0-9a-fA-F]{1,4}|([0-9a-fA-F]{1,4}:){1,5}(:[0-9a-fA-F]{1,4}){1,2}|([0-9a-fA-F]{1,4}:){1,4}(:[0-9a-fA-F]{1,4}){1,3}|([0-9a-fA-F]{1,4}:){1,3}(:[0-9a-fA-F]{1,4}){1,4}|([0-9a-fA-F]{1,4}:){1,2}(:[0-9a-fA-F]{1,4}){1,5}|[0-9a-fA-F]{1,4}:((:[0-9a-fA-F]{1,4}){1,6})|:((:[0-9a-fA-F]{1,4}){1,7}|:)|fe80:(:[0-9a-fA-F]{0,4}){0,4}%[0-9a-zA-Z]{1,}|::(ffff(:0{1,4}){0,1}:){0,1}((25[0-5]|(2[0-4]|1{0,1}[0-9]){0,1}[0-9])\.){3,3}(25[0-5]|(2[0-4]|1{0,1}[0-9]){0,1}[0-9])|([0-9a-fA-F]{1,4}:){1,4}:((25[0-5]|(2[0-4]|1{0,1}[0-9]){0,1}[0-9])\.){3,3}(25[0-5]|(2[0-4]|1{0,1}[0-9]){0,1}[0-9]))";

/// Six two-digit hex octets, separated by colons or hyphens, spanning the text.
pub const MAC_PATTERN: &'static str = r"^(?:[0-9A-Fa-f]{2}[:-]){5}(?:[0-9A-Fa-f]{2})$";

/// Hex groups 8-4-4-4-12, each separator a hyphen, a colon or nothing,
/// spanning the text.
pub const UUID_PATTERN: &'static str = r"^[a-fA-F0-9]{8}[:\-]?[a-fA-F0-9]{4}[:\-]?[a-fA-F0-9]{4}[:\-]?[a-fA-F0-9]{4}[:\-]?[a-fA-F0-9]{12}$";

pub open spec fn ip_address_spec(match_type: DetectiveType, data: Seq<u8>, path: Seq<char>) -> Outcome {
    with_field(
        data,
        path,
        |f: FieldModel|
            match match_type {
                DetectiveType::Ipv4Address => search_outcome(IPV4_PATTERN@, f.text),
                DetectiveType::Ipv6Address => search_outcome(IPV6_PATTERN@, f.text),
                _ => Outcome::Failure(ErrorClass::Mismatch),
            },
    )
}

pub open spec fn pattern_spec(pattern: Seq<char>, data: Seq<u8>, path: Seq<char>) -> Outcome {
    with_field(data, path, |f: FieldModel| search_outcome(pattern, f.text))
}

/// An IP address of the kind `match_type` names occurs in the field's text.
pub fn ip_address(match_type: DetectiveType, data: &Vec<u8>, path: &String, _args: &Vec<String>, _negate: bool) -> (r: Result<bool, CustomError>)
    ensures
        outcome(r) == ip_address_spec(match_type, data@, path@),
{
    let field: String = parse_field(data, path)?;
    match match_type {
        DetectiveType::Ipv4Address => search(IPV4_PATTERN, field.as_str()),
        DetectiveType::Ipv6Address => search(IPV6_PATTERN, field.as_str()),
        _ => Err(CustomError::MatchError("unknown ip address match type".to_string())),
    }
}

/// The whole field's text is a MAC address.
pub fn mac_address(data: &Vec<u8>, path: &String, _args: &Vec<String>, _negate: bool) -> (r: Result<bool, CustomError>)
    ensures
        outcome(r) == pattern_spec(MAC_PATTERN@, data@, path@),
{
    let field: String = parse_field(data, path)?;
    search(MAC_PATTERN, field.as_str())
}

/// The whole field's text is a UUID.
pub fn uuid(data: &Vec<u8>, path: &String, _args: &Vec<String>, _negate: bool) -> (r: Result<bool, CustomError>)
    ensures
        outcome(r) == pattern_spec(UUID_PATTERN@, data@, path@),
{
    let field: String = parse_field(data, path)?;
    search(UUID_PATTERN, field.as_str())
}

/// Whether `chrono::DateTime::parse_from_rfc3339` accepts the text.
pub uninterp spec fn rfc3339_valid(text: Seq<char>) -> bool;

/// Relies on `chrono::DateTime::parse_from_rfc3339`: whether it parses.
#[verifier::external_body]
fn parses_rfc3339(text: &str) -> (r: bool)
    ensures
        r == rfc3339_valid(text@),
{
    chrono::DateTime::parse_from_rfc3339(text).is_ok()
}

/// The Unix second of the first instant `chrono` represents,
/// `DateTime::<Utc>::MIN_UTC` (1 January of year -262143).
pub const MIN_UTC_SECONDS: i64 = -8_334_601_228_800;

/// The Unix second of the last instant `chrono` represents,
/// `DateTime::<Utc>::MAX_UTC` (31 December of year 262142).
pub const MAX_UTC_SECONDS: i64 = 8_210_266_876_799;

/// Whether a count of seconds since the epoch is a UTC instant `chrono` represents.
pub open spec fn utc_instant_valid(secs: int) -> bool {
    MIN_UTC_SECONDS <= secs <= MAX_UTC_SECONDS
}

/// Relies on `chrono::TimeZone::timestamp_opt` for `Utc`: a single instant
/// exactly when the seconds lie between `MIN_UTC` and `MAX_UTC`, none otherwise.
#[verifier::external_body]
fn single_utc_instant(secs: i64) -> (r: bool)
    ensures
        r == utc_instant_valid(secs as int),
{
    match chrono::Utc.timestamp_opt(secs, 0) {
        chrono::LocalResult::Single(_) => true,
        _ => false,
    }
}

pub open spec fn is_digit(c: char) -> bool {
    '0' <= c && c <= '9'
}

/// A non-empty run of ASCII digits.
pub open spec fn is_digits(s: Seq<char>) -> bool {
    s.len() > 0 && forall|i: int| 0 <= i < s.len() ==> is_digit(#[trigger] s[i])
}

/// The decimal value of a run of digits.
pub open spec fn digits_value(s: Seq<char>) -> int
    decreases s.len(),
{
    if s.len() == 0 {
        0
    } else {
        10 * digits_value(s.drop_last()) + (s.last() as int - '0' as int)
    }
}

/// The integer a text denotes: an optional sign, then digits.
pub open spec fn integer_value(s: Seq<char>) -> Option<int> {
    if s.len() > 0 && (s[0] == '-' || s[0] == '+') {
        if is_digits(s.drop_first()) {
            if s[0] == '-' {
                Some(-digits_value(s.drop_first()))
            } else {
                Some(digits_value(s.drop_first()))
            }
        } else {
            None
        }
    } else if is_digits(s) {
        Some(digits_value(s))
    } else {
        None
    }
}

/// The value of the text as an `i64`, if it denotes one that fits.
pub open spec fn i64_value(s: Seq<char>) -> Option<int> {
    match integer_value(s) {
        Some(v) => if i64::MIN <= v <= i64::MAX {
            Some(v)
        } else {
            None
        },
        None => None,
    }
}

/// Relies on `str::parse::<i64>`: an optional `+` or `-` followed by digits
/// only, rejected when it overflows.
#[verifier::external_body]
fn parse_i64(text: &str) -> (r: Option<i64>)
    ensures
        match r {
            Some(v) => i64_value(text@) == Some(v as int),
            None => i64_value(text@).is_none(),
        },
{
    text.parse::<i64>().ok()
}

/// Nanoseconds per second.
pub const NANOS_PER_SECOND: i64 = 1_000_000_000;

/// Division by a billion, truncated toward zero.
pub open spec fn seconds_of_nanos(ts: int) -> int {
    if ts >= 0 {
        ts / NANOS_PER_SECOND as int
    } else {
        -((-ts) / NANOS_PER_SECOND as int)
    }
}

pub open spec fn unix_verdict(text: Seq<char>) -> bool {
    match i64_value(text) {
        Some(v) => utc_instant_valid(v),
        None => false,
    }
}

pub open spec fn unix_nano_verdict(text: Seq<char>) -> bool {
    match i64_value(text) {
        Some(v) => utc_instant_valid(seconds_of_nanos(v)),
        None => false,
    }
}

pub open spec fn timestamp_rfc3339_spec(data: Seq<u8>, path: Seq<char>) -> Outcome {
    with_field(data, path, |f: FieldModel| Outcome::Verdict(rfc3339_valid(f.text)))
}

pub open spec fn timestamp_unix_spec(data: Seq<u8>, path: Seq<char>) -> Outcome {
    with_field(data, path, |f: FieldModel| Outcome::Verdict(unix_verdict(f.text)))
}

pub open spec fn timestamp_unix_nano_spec(data: Seq<u8>, path: Seq<char>) -> Outcome {
    with_field(data, path, |f: FieldModel| Outcome::Verdict(unix_nano_verdict(f.text)))
}

/// The field's text is an RFC 3339 timestamp; text that does not parse is no match.
pub fn timestamp_rfc3339(data: &Vec<u8>, path: &String, _args: &Vec<String>, _negate: bool) -> (r: Result<bool, CustomError>)
    ensures
        outcome(r) == timestamp_rfc3339_spec(data@, path@),
{
    let field: String = parse_field(data, path)?;
    Ok(parses_rfc3339(field.as_str()))
}

/// Truncating division of nanoseconds into seconds.
pub fn nanos_to_seconds(ts: i64) -> (r: i64)
    ensures
        r as int == seconds_of_nanos(ts as int),
{
    if ts >= 0 {
        ts / NANOS_PER_SECOND
    } else {
        let magnitude: u64 = ((-(ts + 1)) as u64) + 1;
        assert(magnitude as int == -(ts as int));
        let q: u64 = magnitude / 1_000_000_000u64;
        assert(q <= 9_223_372_037u64) by (nonlinear_arith)
            requires
                magnitude <= 9_223_372_036_854_775_808u64,
                q == magnitude / 1_000_000_000u64,
        ;
        -(q as i64)
    }
}

/// The field's text is an integer count of nanoseconds whose whole seconds
/// are a valid UTC instant; text that is no integer is no match.
pub fn timestamp_unix_nano(data: &Vec<u8>, path: &String, _args: &Vec<String>, _negate: bool) -> (r: Result<bool, CustomError>)
    ensures
        outcome(r) == timestamp_unix_nano_spec(data@, path@),
{
    let field: String = parse_field(data, path)?;
    match parse_i64(field.as_str()) {
        Some(ts) => Ok(single_utc_instant(nanos_to_seconds(ts))),
        None => Ok(false),
    }
}

/// The field's text is an integer count of seconds that is a valid UTC
/// instant; text that is no integer is no match.
pub fn timestamp_unix(data: &Vec<u8>, path: &String, _args: &Vec<String>, _negate: bool) -> (r: Result<bool, CustomError>)
    ensures
        outcome(r) == timestamp_unix_spec(data@, path@),
{
    let field: String = parse_field(data, path)?;
    match parse_i64(field.as_str()) {
        Some(ts) => Ok(single_utc_instant(ts)),
        None => Ok(false),
    }
}

pub open spec fn boolean_spec(data: Seq<u8>, path: Seq<char>, expected: bool) -> Outcome {
    with_field(
        data,
        path,
        |f: FieldModel|
            if f.kind == JsonKind::True || f.kind == JsonKind::False {
                Outcome::Verdict((f.kind == JsonKind::True) == expected)
            } else {
                Outcome::Failure(ErrorClass::TypeMismatch)
            },
    )
}

/// The field is strictly `true` or `false` and equals `expected`.
pub fn boolean(data: &Vec<u8>, path: &String, _args: &Vec<String>, _negate: bool, expected: bool) -> (r: Result<bool, CustomError>)
    ensures
        outcome(r) == boolean_spec(data@, path@, expected),
{
    let field: bool = parse_field(data, path)?;
    Ok(field == expected)
}

/// Emptiness by kind: `null`, an array without elements, an empty string.
pub open spec fn is_empty_value(f: FieldModel) -> bool {
    match f.kind {
        JsonKind::Null => true,
        JsonKind::Array => f.len == 0,
        JsonKind::String => f.text.len() == 0,
        _ => false,
    }
}

pub open spec fn is_empty_spec(data: Seq<u8>, path: Seq<char>) -> Outcome {
    with_field(data, path, |f: FieldModel| Outcome::Verdict(is_empty_value(f)))
}

/// The field is `null`, an empty array or an empty string.
pub fn is_empty(data: &Vec<u8>, path: &String, _args: &Vec<String>, _negate: bool) -> (r: Result<bool, CustomError>)
    ensures
        outcome(r) == is_empty_spec(data@, path@),
{
    let field: Field = resolve(data, path)?;
    match field.kind {
        JsonKind::Null => Ok(true),
        JsonKind::Array => Ok(field.len == 0),
        JsonKind::String => Ok(field.text.as_str().is_empty()),
        _ => Ok(false),
    }
}

pub open spec fn has_field_spec(data: Seq<u8>, path: Seq<char>) -> Outcome {
    match field_exists(data, path) {
        Ok(b) => Outcome::Verdict(b),
        Err(c) => Outcome::Failure(c),
    }
}

/// The path names a value in the document; only an undecodable document fails.
pub fn has_field(data: &Vec<u8>, path: &String, _args: &Vec<String>, _negate: bool) -> (r: Result<bool, CustomError>)
    ensures
        outcome(r) == has_field_spec(data@, path@),
{
    path_exists(data, path)
}

/// Whether a value of kind `k` has the type named `name`, or `None` for a name
/// outside the known set.
pub open spec fn kind_named(name: Seq<char>, k: JsonKind) -> Option<bool> {
    if name == "string"@ {
        Some(k == JsonKind::String)
    } else if name == "number"@ {
        Some(k == JsonKind::Number)
    } else if name == "boolean"@ || name == "bool"@ {
        Some(k == JsonKind::True || k == JsonKind::False)
    } else if name == "array"@ {
        Some(k == JsonKind::Array)
    } else if name == "object"@ {
        Some(k == JsonKind::Object)
    } else if name == "null"@ {
        Some(k == JsonKind::Null)
    } else {
        None
    }
}

pub open spec fn is_type_spec(data: Seq<u8>, path: Seq<char>, args: Seq<Seq<char>>) -> Outcome {
    if args.len() != 1 {
        Outcome::Failure(ErrorClass::Generic)
    } else {
        with_field(
            data,
            path,
            |f: FieldModel|
                match kind_named(args[0], f.kind) {
                    Some(b) => Outcome::Verdict(b),
                    None => Outcome::Failure(ErrorClass::Mismatch),
                },
        )
    }
}

/// Whether `name` equals the literal `word`.
fn names(name: &String, word: &str) -> (r: bool)
    ensures
        r == (name@ == word@),
{
    let w: String = word.to_string();
    *name == w
}

/// The field's kind is the type named by the single argument.
pub fn is_type(data: &Vec<u8>, path: &String, args: &Vec<String>, _negate: bool) -> (r: Result<bool, CustomError>)
    ensures
        outcome(r) == is_type_spec(data@, path@, texts(args@)),
{
    if args.len() != 1 {
        return Err(arity_error("is_type requires exactly 1 argument"));
    }
    let field: Field = resolve(data, path)?;
    let name = &args[0];
    let k = field.kind;
    if names(name, "string") {
        Ok(k == JsonKind::String)
    } else if names(name, "number") {
        Ok(k == JsonKind::Number)
    } else if names(name, "boolean") || names(name, "bool") {
        Ok(k == JsonKind::True || k == JsonKind::False)
    } else if names(name, "array") {
        Ok(k == JsonKind::Array)
    } else if names(name, "object") {
        Ok(k == JsonKind::Object)
    } else if names(name, "null") {
        Ok(k == JsonKind::Null)
    } else {
        Err(CustomError::MatchError("unknown type".to_string()))
    }
}

pub open spec fn regex_spec(data: Seq<u8>, path: Seq<char>, args: Seq<Seq<char>>) -> Outcome {
    if args.len() != 1 {
        Outcome::Failure(ErrorClass::Generic)
    } else {
        with_field(data, path, |f: FieldModel| search_outcome(args[0], f.text))
    }
}

/// The single argument, compiled as a regular expression, matches somewhere
/// in the field's text.
pub fn regex(data: &Vec<u8>, path: &String, args: &Vec<String>, _negate: bool) -> (r: Result<bool, CustomError>)
    ensures
        outcome(r) == regex_spec(data@, path@, texts(args@)),
{
    if args.len() != 1 {
        return Err(arity_error("regex requires exactly 1 argument"));
    }
    let field: String = parse_field(data, path)?;
    search(args[0].as_str(), field.as_str())
}

} // verus!
