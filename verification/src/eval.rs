use vstd::prelude::*;

use crate::ast::Expr;
use crate::ast::Span;

verus! {

broadcast use vstd::string::group_string_axioms;

/// The tagged value the external evaluator produces for an expression: at
/// least a regex wrapping a `regex_syntax` tree, beside the scalar kinds
/// the arithmetic layer of the language works with.
#[derive(Debug)]
pub enum Value {
    Regex(Box<regex_syntax::ast::Ast>),
    Int(i64),
    Str(String),
    Bool(bool),
}

/// The textual name of a value's kind, used in error messages.
pub open spec fn spec_type_of(v: Value) -> Seq<char> {
    match v {
        Value::Regex(_) => "regex"@,
        Value::Int(_) => "int"@,
        Value::Str(_) => "str"@,
        Value::Bool(_) => "bool"@,
    }
}

impl Value {
    /// The textual name of this value's kind.
    pub fn type_of(&self) -> (r: &'static str)
        ensures
            r@ == spec_type_of(*self),
    {
        match self {
            Value::Regex(_) => "regex",
            Value::Int(_) => "int",
            Value::Str(_) => "str",
            Value::Bool(_) => "bool",
        }
    }
}

/// The one error kind this layer itself raises: evaluation succeeded but
/// the final value was not a regex; `actual` names the kind it was. Every
/// other evaluation failure originates in the evaluator and passes through
/// unchanged.
#[derive(Debug, Clone)]
pub enum ErrorKind {
    FinalValueNotRegex { actual: String },
}

/// An internal error: an error kind together with the span of the
/// expression it arose at, for the diagnostic layer.
#[derive(Debug, Clone)]
pub struct InternalError {
    pub kind: ErrorKind,
    pub span: Span,
}

impl InternalError {
    /// An error is exactly the given kind at the given span.
    pub fn new(kind: ErrorKind, span: Span) -> (e: Self)
        ensures
            e == (InternalError { kind, span }),
    {
        InternalError { kind, span }
    }
}

impl Expr {
    /// Finish evaluating this expression, given the outcome the external
    /// evaluator produced for it: an evaluator error passes through
    /// unchanged; a regex value is the result; any other value is a
    /// `FinalValueNotRegex` error naming the value's kind and carrying
    /// this expression's span.
    pub fn eval(&self, evaluated: Result<Value, InternalError>) -> (r: Result<
        Box<regex_syntax::ast::Ast>,
        InternalError,
    >)
        ensures
            evaluated matches Err(err) ==> r == Result::<
                Box<regex_syntax::ast::Ast>,
                InternalError,
            >::Err(err),
            evaluated matches Ok(v) ==> (v matches Value::Regex(re) ==> r == Result::<
                Box<regex_syntax::ast::Ast>,
                InternalError,
            >::Ok(re)),
            evaluated matches Ok(v) ==> v is Regex || (r matches Err(err) && err.span
                == self.span && (err.kind matches ErrorKind::FinalValueNotRegex { actual }
                && actual@ == spec_type_of(v))),
    {
        let span = self.span;
        match evaluated {
            Ok(val) => match val {
                Value::Regex(re) => Ok(re),
                other => Err(
                    InternalError::new(
                        ErrorKind::FinalValueNotRegex { actual: other.type_of().to_string() },
                        span,
                    ),
                ),
            },
            Err(e) => Err(e),
        }
    }
}

} // verus!
