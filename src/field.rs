use crate::error::{class_of, CustomError, ErrorClass, Outcome};
use vstd::prelude::*;

verus! {

/// The kind of a JSON value.
#[derive(Debug, Clone, Copy, PartialEq, Eq, Structural)]
pub enum JsonKind {
    Null,
    False,
    Number,
    String,
    True,
    Array,
    Object,
}

/// A value resolved from a document, held as what the predicates read of it.
pub struct Field {
    pub kind: JsonKind,
    /// The value rendered as text: strings unquoted, `true`/`false` literally,
    /// numbers, arrays and objects as their JSON, `null` as the empty text.
    pub text: String,
    /// The number of elements, for an array.
    pub len: usize,
}

pub ghost struct FieldModel {
    pub kind: JsonKind,
    pub text: Seq<char>,
    pub len: nat,
}

impl View for Field {
    type V = FieldModel;

    open spec fn view(&self) -> FieldModel {
        FieldModel { kind: self.kind, text: self.text@, len: self.len as nat }
    }
}

/// What `std::str::from_utf8` makes of a byte sequence.
pub uninterp spec fn utf8_decoded(bytes: Seq<u8>) -> Option<Seq<char>>;

/// Whether `gjson::get(json, path)` finds a value.
pub uninterp spec fn gjson_exists(json: Seq<char>, path: Seq<char>) -> bool;

/// The kind of the value that `gjson::get(json, path)` finds.
pub uninterp spec fn gjson_kind(json: Seq<char>, path: Seq<char>) -> JsonKind;

/// The text of the value that `gjson::get(json, path)` finds.
pub uninterp spec fn gjson_text(json: Seq<char>, path: Seq<char>) -> Seq<char>;

/// The number of elements of the value that `gjson::get(json, path)` finds.
pub uninterp spec fn gjson_array_len(json: Seq<char>, path: Seq<char>) -> nat;

/// Relies on `std::str::from_utf8`: the bytes decoded as UTF-8, if they are valid.
#[verifier::external_body]
fn decode_utf8(data: &Vec<u8>) -> (r: Option<&str>)
    ensures
        match r {
            Some(s) => utf8_decoded(data@) == Some(s@),
            None => utf8_decoded(data@).is_none(),
        },
{
    std::str::from_utf8(data).ok()
}

/// Relies on `gjson::get` and `gjson::Value::exists`.
#[verifier::external_body]
fn lookup_exists(json: &str, path: &str) -> (r: bool)
    ensures
        r == gjson_exists(json@, path@),
{
    gjson::get(json, path).exists()
}

/// Relies on `gjson::get` and `gjson::Value::kind`.
#[verifier::external_body]
fn lookup_kind(json: &str, path: &str) -> (r: JsonKind)
    ensures
        r == gjson_kind(json@, path@),
{
    match gjson::get(json, path).kind() {
        gjson::Kind::Null => JsonKind::Null,
        gjson::Kind::False => JsonKind::False,
        gjson::Kind::Number => JsonKind::Number,
        gjson::Kind::String => JsonKind::String,
        gjson::Kind::True => JsonKind::True,
        gjson::Kind::Array => JsonKind::Array,
        gjson::Kind::Object => JsonKind::Object,
    }
}

/// Relies on `gjson::get` and `gjson::Value::to_string`, which renders the
/// value through `Value::str`. Only for a value that exists: `Value::str`
/// slices the quotes off a string value and panics on one without JSON text.
#[verifier::external_body]
fn lookup_text(json: &str, path: &str) -> (r: String)
    requires
        gjson_exists(json@, path@),
    ensures
        r@ == gjson_text(json@, path@),
{
    gjson::get(json, path).to_string()
}

/// Relies on `gjson::get` and `gjson::Value::array`: the number of elements.
#[verifier::external_body]
fn lookup_array_len(json: &str, path: &str) -> (r: usize)
    ensures
        r as nat == gjson_array_len(json@, path@),
{
    gjson::get(json, path).array().len()
}

/// The document as text, or the class of error for bytes that are not UTF-8.
pub open spec fn document_text(data: Seq<u8>) -> Result<Seq<char>, ErrorClass> {
    match utf8_decoded(data) {
        Some(json) => Ok(json),
        None => Err(ErrorClass::Generic),
    }
}

/// The field at `path`, as the resolver sees it.
pub open spec fn resolved(data: Seq<u8>, path: Seq<char>) -> Result<FieldModel, ErrorClass> {
    match document_text(data) {
        Err(c) => Err(c),
        Ok(json) => if !gjson_exists(json, path) {
            Err(ErrorClass::NotFound)
        } else {
            Ok(FieldModel {
                kind: gjson_kind(json, path),
                text: gjson_text(json, path),
                len: gjson_array_len(json, path),
            })
        },
    }
}

/// Whether `path` names a value in the document, bypassing coercion.
pub open spec fn field_exists(data: Seq<u8>, path: Seq<char>) -> Result<bool, ErrorClass> {
    match document_text(data) {
        Err(c) => Err(c),
        Ok(json) => Ok(gjson_exists(json, path)),
    }
}

/// Decodes the document, failing with a generic error on invalid UTF-8.
pub fn document_str(data: &Vec<u8>) -> (r: Result<&str, CustomError>)
    ensures
        match document_text(data@) {
            Ok(json) => r is Ok && r->Ok_0@ == json,
            Err(c) => r is Err && class_of(r->Err_0) == c,
        },
{
    match decode_utf8(data) {
        Some(s) => Ok(s),
        None => Err(CustomError::Error("unable to convert bytes to string".to_string())),
    }
}

/// Resolves `path` in the document.
pub fn resolve(data: &Vec<u8>, path: &String) -> (r: Result<Field, CustomError>)
    ensures
        match resolved(data@, path@) {
            Ok(m) => r is Ok && r->Ok_0@ == m,
            Err(c) => r is Err && class_of(r->Err_0) == c,
        },
{
    let json = document_str(data)?;
    let p = path.as_str();
    if !lookup_exists(json, p) {
        return Err(CustomError::NotFound("path not found".to_string()));
    }
    Ok(Field { kind: lookup_kind(json, p), text: lookup_text(json, p), len: lookup_array_len(json, p) })
}

/// Reports whether `path` names a value in the document.
pub fn path_exists(data: &Vec<u8>, path: &String) -> (r: Result<bool, CustomError>)
    ensures
        match field_exists(data@, path@) {
            Ok(b) => r == Ok::<bool, CustomError>(b),
            Err(c) => r is Err && class_of(r->Err_0) == c,
        },
{
    let json = document_str(data)?;
    Ok(lookup_exists(json, path.as_str()))
}

/// The outcome of a predicate that reads the field at `path` through `f`: an
/// error of resolution passes through unchanged.
pub open spec fn with_field(data: Seq<u8>, path: Seq<char>, f: spec_fn(FieldModel) -> Outcome) -> Outcome {
    match resolved(data, path) {
        Err(c) => Outcome::Failure(c),
        Ok(m) => f(m),
    }
}

/// Coercion of a resolved value into the semantic type a predicate needs.
pub trait FromValue: Sized {
    /// Whether `field` can be coerced to this type.
    spec fn accepts(field: FieldModel) -> bool;

    /// Whether `v` is the coercion of `field`.
    spec fn coerced(field: FieldModel, v: Self) -> bool;

    fn from_value(value: &Field) -> (r: Result<Self, CustomError>)
        ensures
            r is Ok <==> Self::accepts(value@),
            r is Ok ==> Self::coerced(value@, r->Ok_0),
            r is Err ==> class_of(r->Err_0) == ErrorClass::TypeMismatch,
    ;
}

/// Every value renders to text.
impl FromValue for String {
    open spec fn accepts(field: FieldModel) -> bool {
        true
    }

    open spec fn coerced(field: FieldModel, v: String) -> bool {
        v@ == field.text
    }

    fn from_value(value: &Field) -> (r: Result<String, CustomError>) {
        Ok(value.text.clone())
    }
}

/// Only `true` and `false` coerce to a boolean.
impl FromValue for bool {
    open spec fn accepts(field: FieldModel) -> bool {
        field.kind == JsonKind::True || field.kind == JsonKind::False
    }

    open spec fn coerced(field: FieldModel, v: bool) -> bool {
        v == (field.kind == JsonKind::True)
    }

    fn from_value(value: &Field) -> (r: Result<bool, CustomError>) {
        match value.kind {
            JsonKind::True => Ok(true),
            JsonKind::False => Ok(false),
            _ => Err(CustomError::TypeMismatch("not a boolean".to_string())),
        }
    }
}

/// Resolves `path` and coerces the value to `T`.
pub fn parse_field<T: FromValue>(data: &Vec<u8>, path: &String) -> (r: Result<T, CustomError>)
    ensures
        match resolved(data@, path@) {
            Err(c) => r is Err && class_of(r->Err_0) == c,
            Ok(m) => if T::accepts(m) {
                r is Ok && T::coerced(m, r->Ok_0)
            } else {
                r is Err && class_of(r->Err_0) == ErrorClass::TypeMismatch
            },
        },
{
    let field = resolve(data, path)?;
    T::from_value(&field)
}

} // verus!
