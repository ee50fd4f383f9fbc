use vstd::prelude::*;

verus! {

/// Every failure a predicate can report.
#[derive(Debug)]
pub enum CustomError {
    /// Arity violations, unparsable arguments, undecodable documents.
    Error(String),
    /// A predicate kind handed to the wrong evaluator, or an unknown type name.
    MatchError(String),
    /// A pattern that the regular-expression compiler rejected.
    /// It carries the compiler's diagnostic.
    RegexError { source: String },
    /// A predicate code without a known meaning.
    MissingMatchType(i32),
    /// The path does not resolve in the document.
    NotFound(String),
    /// The resolved value cannot be coerced to the type the predicate needs.
    TypeMismatch(String),
}

/// The class of an error, which is what contracts speak of.
pub ghost enum ErrorClass {
    Generic,
    Mismatch,
    Pattern,
    Unsupported,
    NotFound,
    TypeMismatch,
}

/// The abstract result of one evaluation: a verdict or the class of an error.
pub ghost enum Outcome {
    Verdict(bool),
    Failure(ErrorClass),
}

pub open spec fn class_of(e: CustomError) -> ErrorClass {
    match e {
        CustomError::Error(_) => ErrorClass::Generic,
        CustomError::MatchError(_) => ErrorClass::Mismatch,
        CustomError::RegexError { .. } => ErrorClass::Pattern,
        CustomError::MissingMatchType(_) => ErrorClass::Unsupported,
        CustomError::NotFound(_) => ErrorClass::NotFound,
        CustomError::TypeMismatch(_) => ErrorClass::TypeMismatch,
    }
}

pub open spec fn outcome(r: Result<bool, CustomError>) -> Outcome {
    match r {
        Ok(b) => Outcome::Verdict(b),
        Err(e) => Outcome::Failure(class_of(e)),
    }
}

/// Negation applied at the call boundary: a verdict is flipped, an error passes.
pub open spec fn negated(o: Outcome, negate: bool) -> Outcome {
    match o {
        Outcome::Verdict(b) => Outcome::Verdict(if negate { !b } else { b }),
        Outcome::Failure(c) => Outcome::Failure(c),
    }
}

/// The error for an argument list of the wrong length.
pub fn arity_error(message: &str) -> (r: CustomError)
    ensures
        class_of(r) == ErrorClass::Generic,
{
    CustomError::Error(message.to_string())
}

} // verus!
