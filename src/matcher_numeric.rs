use crate::error::{arity_error, outcome, CustomError, ErrorClass, Outcome};
use crate::field::{resolve, resolved, Field, JsonKind};
use crate::matcher_core::texts;
use vstd::prelude::*;

verus! {

/// The numeric comparisons.
#[derive(Debug, Clone, Copy, PartialEq, Eq, Structural)]
pub enum NumericOp {
    EqualTo,
    GreaterThan,
    GreaterEqual,
    LessThan,
    LessEqual,
}

/// How the field's number stands to the argument's under IEEE 754 ordering.
#[derive(Debug, Clone, Copy, PartialEq, Eq, Structural)]
pub enum FloatOrder {
    Less,
    Equal,
    Greater,
    /// One side is NaN.
    Unordered,
}

/// Whether the field stands to the argument as `op` asks.
pub open spec fn order_satisfies(op: NumericOp, o: FloatOrder) -> bool {
    match op {
        NumericOp::EqualTo => o == FloatOrder::Equal,
        NumericOp::GreaterThan => o == FloatOrder::Greater,
        NumericOp::GreaterEqual => o == FloatOrder::Greater || o == FloatOrder::Equal,
        NumericOp::LessThan => o == FloatOrder::Less,
        NumericOp::LessEqual => o == FloatOrder::Less || o == FloatOrder::Equal,
    }
}

/// The verdict for an order, or a generic error where the operands were no
/// numbers (`None`).
pub open spec fn decide_spec(op: NumericOp, o: Option<FloatOrder>) -> Outcome {
    match o {
        Some(o) => Outcome::Verdict(order_satisfies(op, o)),
        None => Outcome::Failure(ErrorClass::Generic),
    }
}

/// The texts to compare: the field's number and the single argument.
pub open spec fn numeric_operands(data: Seq<u8>, path: Seq<char>, args: Seq<Seq<char>>) -> Result<(Seq<char>, Seq<char>), ErrorClass> {
    if args.len() != 1 {
        Err(ErrorClass::Generic)
    } else {
        match resolved(data, path) {
            Err(c) => Err(c),
            Ok(f) => if f.kind == JsonKind::Number {
                Ok((f.text, args[0]))
            } else {
                Err(ErrorClass::TypeMismatch)
            },
        }
    }
}

/// The outcome of a numeric predicate when the comparison of the operands gave `o`.
pub open spec fn numeric_spec(op: NumericOp, data: Seq<u8>, path: Seq<char>, args: Seq<Seq<char>>, o: Option<FloatOrder>) -> Outcome {
    match numeric_operands(data, path, args) {
        Err(c) => Outcome::Failure(c),
        Ok(_) => decide_spec(op, o),
    }
}

/// Whether `compare` may have given `o` on the operands of the predicate.
pub open spec fn compared<F: Fn(&str, &str) -> Option<FloatOrder>>(compare: F, data: Seq<u8>, path: Seq<char>, args: Seq<Seq<char>>, o: Option<FloatOrder>) -> bool {
    match numeric_operands(data, path, args) {
        Err(_) => true,
        Ok((x, y)) => exists|a: &str, b: &str| a@ == x && b@ == y && #[trigger] compare.ensures((a, b), o),
    }
}

/// Whether an order satisfies `op`.
pub fn order_holds(op: NumericOp, o: FloatOrder) -> (r: bool)
    ensures
        r == order_satisfies(op, o),
{
    match op {
        NumericOp::EqualTo => o == FloatOrder::Equal,
        NumericOp::GreaterThan => o == FloatOrder::Greater,
        NumericOp::GreaterEqual => o == FloatOrder::Greater || o == FloatOrder::Equal,
        NumericOp::LessThan => o == FloatOrder::Less,
        NumericOp::LessEqual => o == FloatOrder::Less || o == FloatOrder::Equal,
    }
}

/// The verdict for a comparison result; `None` (an operand that is no number)
/// is an error, never a `false`.
pub fn decide(op: NumericOp, o: Option<FloatOrder>) -> (r: Result<bool, CustomError>)
    ensures
        outcome(r) == decide_spec(op, o),
{
    match o {
        Some(o) => Ok(order_holds(op, o)),
        None => Err(CustomError::Error("argument is not a number".to_string())),
    }
}

/// Compares the field, a JSON number, with the single argument. `compare`
/// parses both texts as 64-bit floats and orders them, or gives `None` where one
/// does not parse.
pub fn numeric<F: Fn(&str, &str) -> Option<FloatOrder>>(
    op: NumericOp,
    data: &Vec<u8>,
    path: &String,
    args: &Vec<String>,
    _negate: bool,
    compare: F,
) -> (r: Result<bool, CustomError>)
    requires
        forall|a: &str, b: &str| #[trigger] compare.requires((a, b)),
    ensures
        exists|o: Option<FloatOrder>|
            outcome(r) == numeric_spec(op, data@, path@, texts(args@), o) && #[trigger] compared(compare, data@, path@, texts(args@), o),
{
    if args.len() != 1 {
        let r = Err(arity_error("numeric comparison requires exactly 1 argument"));
        assert(compared(compare, data@, path@, texts(args@), None));
        return r;
    }
    let field: Field = match resolve(data, path) {
        Ok(f) => f,
        Err(e) => {
            assert(compared(compare, data@, path@, texts(args@), None));
            return Err(e);
        },
    };
    if field.kind != JsonKind::Number {
        assert(compared(compare, data@, path@, texts(args@), None));
        return Err(CustomError::TypeMismatch("not a number".to_string()));
    }
    let a = field.text.as_str();
    let b = args[0].as_str();
    let o = compare(a, b);
    assert(compared(compare, data@, path@, texts(args@), o));
    decide(op, o)
}

} // verus!
