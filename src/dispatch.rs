use crate::error::{class_of, negated, outcome, CustomError, ErrorClass, Outcome};
use crate::field::{resolved, FieldModel};
use crate::matcher_core::{
    boolean, boolean_spec, has_field, has_field_spec, ip_address, ip_address_spec, is_empty, is_empty_spec, is_type,
    is_type_spec, mac_address, pattern_spec, regex, regex_spec, string_contains_all, string_contains_all_spec,
    string_contains_any, string_contains_any_spec, i64_value, string_equal_to, string_equal_to_spec, texts, timestamp_rfc3339,
    timestamp_rfc3339_spec, timestamp_unix, timestamp_unix_nano, timestamp_unix_nano_spec, timestamp_unix_spec, uuid,
    MAC_PATTERN, UUID_PATTERN,
};
use crate::matcher_numeric::{compared, numeric, numeric_operands, numeric_spec, FloatOrder, NumericOp};
use vstd::prelude::*;

verus! {

/// The closed set of predicate kinds.
#[derive(Debug, Clone, Copy, PartialEq, Eq, Structural)]
pub enum DetectiveType {
    StringEqualTo,
    StringContainsAny,
    StringContainsAll,
    Ipv4Address,
    Ipv6Address,
    MacAddress,
    Uuid,
    TimestampRfc3339,
    TimestampUnix,
    TimestampUnixNano,
    BooleanTrue,
    BooleanFalse,
    IsEmpty,
    HasField,
    IsType,
    Regex,
    NumericEqualTo,
    NumericGreaterThan,
    NumericGreaterEqual,
    NumericLessThan,
    NumericLessEqual,
}

impl DetectiveType {
    /// Whether the kind compares numbers.
    pub open spec fn is_numeric(self) -> bool {
        match self {
            DetectiveType::NumericEqualTo | DetectiveType::NumericGreaterThan | DetectiveType::NumericGreaterEqual
            | DetectiveType::NumericLessThan | DetectiveType::NumericLessEqual => true,
            _ => false,
        }
    }

    /// Whether the kind takes exactly one argument.
    pub open spec fn takes_one_argument(self) -> bool {
        self.is_numeric() || self == DetectiveType::StringEqualTo || self == DetectiveType::IsType
            || self == DetectiveType::Regex
    }

    /// Whether the kind takes one or more arguments.
    pub open spec fn takes_arguments(self) -> bool {
        self == DetectiveType::StringContainsAny || self == DetectiveType::StringContainsAll
    }

    /// Whether `n` arguments are an acceptable count for the kind.
    pub open spec fn arity_ok(self, n: nat) -> bool {
        if self.takes_one_argument() {
            n == 1
        } else if self.takes_arguments() {
            n >= 1
        } else {
            true
        }
    }

    /// Whether the kind compares numbers.
    pub fn is_numeric_kind(self) -> (r: bool)
        ensures
            r == self.is_numeric(),
    {
        match self {
            DetectiveType::NumericEqualTo | DetectiveType::NumericGreaterThan | DetectiveType::NumericGreaterEqual
            | DetectiveType::NumericLessThan | DetectiveType::NumericLessEqual => true,
            _ => false,
        }
    }

    /// The comparison a numeric kind makes.
    pub fn numeric_op(self) -> (r: NumericOp)
        ensures
            r == self.numeric_op_spec(),
    {
        match self {
            DetectiveType::NumericGreaterThan => NumericOp::GreaterThan,
            DetectiveType::NumericGreaterEqual => NumericOp::GreaterEqual,
            DetectiveType::NumericLessThan => NumericOp::LessThan,
            DetectiveType::NumericLessEqual => NumericOp::LessEqual,
            _ => NumericOp::EqualTo,
        }
    }

    pub open spec fn numeric_op_spec(self) -> NumericOp {
        match self {
            DetectiveType::NumericGreaterThan => NumericOp::GreaterThan,
            DetectiveType::NumericGreaterEqual => NumericOp::GreaterEqual,
            DetectiveType::NumericLessThan => NumericOp::LessThan,
            DetectiveType::NumericLessEqual => NumericOp::LessEqual,
            _ => NumericOp::EqualTo,
        }
    }
}

/// The kind a code stands for. The numbering is this library's own: codes
/// number the kinds in the order of their declaration, from zero, and make no
/// claim to match any other encoding of predicate kinds.
pub open spec fn kind_of_code(code: i32) -> Option<DetectiveType> {
    match code {
        0 => Some(DetectiveType::StringEqualTo),
        1 => Some(DetectiveType::StringContainsAny),
        2 => Some(DetectiveType::StringContainsAll),
        3 => Some(DetectiveType::Ipv4Address),
        4 => Some(DetectiveType::Ipv6Address),
        5 => Some(DetectiveType::MacAddress),
        6 => Some(DetectiveType::Uuid),
        7 => Some(DetectiveType::TimestampRfc3339),
        8 => Some(DetectiveType::TimestampUnix),
        9 => Some(DetectiveType::TimestampUnixNano),
        10 => Some(DetectiveType::BooleanTrue),
        11 => Some(DetectiveType::BooleanFalse),
        12 => Some(DetectiveType::IsEmpty),
        13 => Some(DetectiveType::HasField),
        14 => Some(DetectiveType::IsType),
        15 => Some(DetectiveType::Regex),
        16 => Some(DetectiveType::NumericEqualTo),
        17 => Some(DetectiveType::NumericGreaterThan),
        18 => Some(DetectiveType::NumericGreaterEqual),
        19 => Some(DetectiveType::NumericLessThan),
        20 => Some(DetectiveType::NumericLessEqual),
        _ => None,
    }
}

impl DetectiveType {
    /// The kind for a wire code, or `MissingMatchType` for a code that stands
    /// for none.
    pub fn from_code(code: i32) -> (r: Result<DetectiveType, CustomError>)
        ensures
            match kind_of_code(code) {
                Some(k) => r is Ok && r->Ok_0 == k,
                None => r is Err && class_of(r->Err_0) == ErrorClass::Unsupported,
            },
    {
        match code {
            0 => Ok(DetectiveType::StringEqualTo),
            1 => Ok(DetectiveType::StringContainsAny),
            2 => Ok(DetectiveType::StringContainsAll),
            3 => Ok(DetectiveType::Ipv4Address),
            4 => Ok(DetectiveType::Ipv6Address),
            5 => Ok(DetectiveType::MacAddress),
            6 => Ok(DetectiveType::Uuid),
            7 => Ok(DetectiveType::TimestampRfc3339),
            8 => Ok(DetectiveType::TimestampUnix),
            9 => Ok(DetectiveType::TimestampUnixNano),
            10 => Ok(DetectiveType::BooleanTrue),
            11 => Ok(DetectiveType::BooleanFalse),
            12 => Ok(DetectiveType::IsEmpty),
            13 => Ok(DetectiveType::HasField),
            14 => Ok(DetectiveType::IsType),
            15 => Ok(DetectiveType::Regex),
            16 => Ok(DetectiveType::NumericEqualTo),
            17 => Ok(DetectiveType::NumericGreaterThan),
            18 => Ok(DetectiveType::NumericGreaterEqual),
            19 => Ok(DetectiveType::NumericLessThan),
            20 => Ok(DetectiveType::NumericLessEqual),
            _ => Err(CustomError::MissingMatchType(code)),
        }
    }
}

/// The un-negated outcome of the predicate `kind`; `o` is what the comparison
/// of the operands gave, read only by the numeric kinds.
pub open spec fn predicate_spec(
    kind: DetectiveType,
    data: Seq<u8>,
    path: Seq<char>,
    args: Seq<Seq<char>>,
    o: Option<FloatOrder>,
) -> Outcome {
    match kind {
        DetectiveType::StringEqualTo => string_equal_to_spec(data, path, args),
        DetectiveType::StringContainsAny => string_contains_any_spec(data, path, args),
        DetectiveType::StringContainsAll => string_contains_all_spec(data, path, args),
        DetectiveType::Ipv4Address | DetectiveType::Ipv6Address => ip_address_spec(kind, data, path),
        DetectiveType::MacAddress => pattern_spec(MAC_PATTERN@, data, path),
        DetectiveType::Uuid => pattern_spec(UUID_PATTERN@, data, path),
        DetectiveType::TimestampRfc3339 => timestamp_rfc3339_spec(data, path),
        DetectiveType::TimestampUnix => timestamp_unix_spec(data, path),
        DetectiveType::TimestampUnixNano => timestamp_unix_nano_spec(data, path),
        DetectiveType::BooleanTrue => boolean_spec(data, path, true),
        DetectiveType::BooleanFalse => boolean_spec(data, path, false),
        DetectiveType::IsEmpty => is_empty_spec(data, path),
        DetectiveType::HasField => has_field_spec(data, path),
        DetectiveType::IsType => is_type_spec(data, path, args),
        DetectiveType::Regex => regex_spec(data, path, args),
        _ => numeric_spec(kind.numeric_op_spec(), data, path, args, o),
    }
}

/// Evaluates the predicate `kind` on the field at `path` and applies `negate`
/// to its verdict. `compare` orders two numeric texts for the numeric kinds.
pub fn evaluate<F: Fn(&str, &str) -> Option<FloatOrder>>(
    kind: DetectiveType,
    data: &Vec<u8>,
    path: &String,
    args: &Vec<String>,
    negate: bool,
    compare: F,
) -> (r: Result<bool, CustomError>)
    requires
        forall|a: &str, b: &str| #[trigger] compare.requires((a, b)),
    ensures
        exists|o: Option<FloatOrder>|
            #![trigger predicate_spec(kind, data@, path@, texts(args@), o)]
            outcome(r) == negated(predicate_spec(kind, data@, path@, texts(args@), o), negate)
                && (kind.is_numeric() ==> compared(compare, data@, path@, texts(args@), o)),
{
    if kind.is_numeric_kind() {
        let op = kind.numeric_op();
        let raw = numeric(op, data, path, args, negate, compare);
        let ghost o = choose|o: Option<FloatOrder>|
            outcome(raw) == numeric_spec(op, data@, path@, texts(args@), o) && #[trigger] compared(compare, data@, path@, texts(args@), o);
        let r = apply_negation(raw, negate);
        assert(outcome(r) == negated(predicate_spec(kind, data@, path@, texts(args@), o), negate));
        return r;
    }
    let raw = match kind {
        DetectiveType::StringEqualTo => string_equal_to(data, path, args, negate),
        DetectiveType::StringContainsAny => string_contains_any(data, path, args, negate),
        DetectiveType::StringContainsAll => string_contains_all(data, path, args, negate),
        DetectiveType::Ipv4Address | DetectiveType::Ipv6Address => ip_address(kind, data, path, args, negate),
        DetectiveType::MacAddress => mac_address(data, path, args, negate),
        DetectiveType::Uuid => uuid(data, path, args, negate),
        DetectiveType::TimestampRfc3339 => timestamp_rfc3339(data, path, args, negate),
        DetectiveType::TimestampUnix => timestamp_unix(data, path, args, negate),
        DetectiveType::TimestampUnixNano => timestamp_unix_nano(data, path, args, negate),
        DetectiveType::BooleanTrue => boolean(data, path, args, negate, true),
        DetectiveType::BooleanFalse => boolean(data, path, args, negate, false),
        DetectiveType::IsEmpty => is_empty(data, path, args, negate),
        DetectiveType::HasField => has_field(data, path, args, negate),
        DetectiveType::IsType => is_type(data, path, args, negate),
        _ => regex(data, path, args, negate),
    };
    let r = apply_negation(raw, negate);
    assert(outcome(r) == negated(predicate_spec(kind, data@, path@, texts(args@), None), negate));
    r
}

/// Flips a verdict when `negate` is set; an error passes unchanged.
pub fn apply_negation(raw: Result<bool, CustomError>, negate: bool) -> (r: Result<bool, CustomError>)
    ensures
        outcome(r) == negated(outcome(raw), negate),
{
    match raw {
        Ok(b) => Ok(if negate { !b } else { b }),
        Err(e) => Err(e),
    }
}

/// Every predicate that takes exactly one argument fails with the same generic
/// arity error when given any other number of arguments, before the document
/// is looked at.
pub proof fn lemma_single_argument_arity(
    kind: DetectiveType,
    data: Seq<u8>,
    path: Seq<char>,
    args: Seq<Seq<char>>,
    o: Option<FloatOrder>,
)
    requires
        kind.takes_one_argument(),
        args.len() != 1,
    ensures
        predicate_spec(kind, data, path, args, o) == Outcome::Failure(ErrorClass::Generic),
{
}

/// A path that does not resolve makes every predicate fail with `NotFound`,
/// given an acceptable argument count, except `HasField`, which answers `false`.
pub proof fn lemma_unresolved_path(
    kind: DetectiveType,
    data: Seq<u8>,
    path: Seq<char>,
    args: Seq<Seq<char>>,
    o: Option<FloatOrder>,
)
    requires
        resolved(data, path) == Err::<crate::field::FieldModel, ErrorClass>(ErrorClass::NotFound),
        kind.arity_ok(args.len()),
    ensures
        kind == DetectiveType::HasField ==> predicate_spec(kind, data, path, args, o) == Outcome::Verdict(false),
        kind != DetectiveType::HasField ==> predicate_spec(kind, data, path, args, o) == Outcome::Failure(ErrorClass::NotFound),
{
}

/// Containment of every one of no arguments is an arity error, not a vacuous match.
pub proof fn lemma_contains_all_without_arguments(data: Seq<u8>, path: Seq<char>)
    ensures
        string_contains_all_spec(data, path, Seq::empty()) == Outcome::Failure(ErrorClass::Generic),
{
}

/// A numeric comparison whose argument is no number is an error, not a `false`.
pub proof fn lemma_numeric_argument_not_a_number(op: NumericOp, data: Seq<u8>, path: Seq<char>, args: Seq<Seq<char>>)
    requires
        numeric_operands(data, path, args) is Ok,
    ensures
        numeric_spec(op, data, path, args, None) == Outcome::Failure(ErrorClass::Generic),
{
}

/// A field whose text is no 64-bit integer is no Unix timestamp, and no error.
pub proof fn lemma_unix_timestamp_not_an_integer(data: Seq<u8>, path: Seq<char>, f: FieldModel)
    requires
        resolved(data, path) == Ok::<FieldModel, ErrorClass>(f),
        i64_value(f.text).is_none(),
    ensures
        timestamp_unix_spec(data, path) == Outcome::Verdict(false),
        timestamp_unix_nano_spec(data, path) == Outcome::Verdict(false),
{
}

} // verus!
