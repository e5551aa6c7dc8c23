//! The runtime value model and the runtime error taxonomy.

use vstd::prelude::*;

use crate::ast::{
    clone_block, clone_idents, spec_view_block, spec_view_idents, BlockStatement, Identifier,
    SpecBlock, SpecIdent,
};
use crate::builtins::BuiltinKind;
use crate::display::{
    bool_to_string, i64_to_string, render_params, render_stmts, spec_bool_str, spec_i64_str,
    spec_nat_digits, spec_render_params, spec_render_stmts, spec_token_text, token_text,
};
use crate::token::{SpecTokenKind, TokenKind};
use vstd::string::StringExecFns;

verus! {

/// A runtime value, immutable once constructed.
///
/// `ReturnValue` is a transient control-flow signal that propagates an early
/// `ret` out of nested blocks; it is never a legitimate final program result
/// outside the function call that produced it. `Function` carries the
/// parameters, the body, and the index of the captured scope in the
/// `Environment` arena (lexical scoping).
#[derive(Debug, PartialEq)]
pub enum Object {
    Integer(i64),
    Boolean(bool),
    Str(String),
    ReturnValue(Box<Object>),
    Function(Vec<Identifier>, BlockStatement, usize),
    Builtin(BuiltinKind),
    Error(String),
    Null,
}

/// The mathematical value of an `Object`.
pub enum SpecObject {
    Integer(i64),
    Boolean(bool),
    Str(Seq<char>),
    ReturnValue(Box<SpecObject>),
    Function(Seq<SpecIdent>, SpecBlock, int),
    Builtin(BuiltinKind),
    Error(Seq<char>),
    Null,
}

/// The mirror of one runtime value.
pub open spec fn spec_view_object(o: Object) -> SpecObject
    decreases o,
{
    match o {
        Object::Integer(v) => SpecObject::Integer(v),
        Object::Boolean(b) => SpecObject::Boolean(b),
        Object::Str(s) => SpecObject::Str(s@),
        Object::ReturnValue(inner) => SpecObject::ReturnValue(Box::new(spec_view_object(*inner))),
        Object::Function(params, body, scope) => SpecObject::Function(
            spec_view_idents(params@),
            spec_view_block(body),
            scope as int,
        ),
        Object::Builtin(k) => SpecObject::Builtin(k),
        Object::Error(s) => SpecObject::Error(s@),
        Object::Null => SpecObject::Null,
    }
}

impl View for Object {
    type V = SpecObject;

    open spec fn view(&self) -> SpecObject {
        spec_view_object(*self)
    }
}

/// A copy of a runtime value with the same mathematical value.
pub fn clone_object(o: &Object) -> (r: Object)
    ensures
        r@ == o@,
    decreases *o,
{
    match o {
        Object::Integer(v) => Object::Integer(*v),
        Object::Boolean(b) => Object::Boolean(*b),
        Object::Str(s) => Object::Str(s.clone()),
        Object::ReturnValue(inner) => Object::ReturnValue(Box::new(clone_object(inner))),
        Object::Function(params, body, scope) => Object::Function(
            clone_idents(params),
            clone_block(body),
            *scope,
        ),
        Object::Builtin(k) => Object::Builtin(*k),
        Object::Error(s) => Object::Error(s.clone()),
        Object::Null => Object::Null,
    }
}

/// The display form of a runtime value: integers in decimal, booleans as
/// `true`/`false`, strings as their text, the null value as `null`.
pub open spec fn spec_object_str(o: SpecObject) -> Seq<char>
    decreases o,
{
    match o {
        SpecObject::Integer(v) => spec_i64_str(v),
        SpecObject::Boolean(b) => spec_bool_str(b),
        SpecObject::Str(s) => s,
        SpecObject::ReturnValue(inner) => spec_object_str(*inner),
        SpecObject::Function(params, body, _) => "fn("@ + spec_render_params(params) + ") { "@
            + spec_render_stmts(body.body) + " }"@,
        SpecObject::Builtin(_) => "[builtin func]"@,
        SpecObject::Error(s) => s,
        SpecObject::Null => "null"@,
    }
}

/// The display form of a runtime value.
pub fn object_to_string(o: &Object) -> (r: String)
    ensures
        r@ == spec_object_str(o@),
    decreases *o,
{
    match o {
        Object::Integer(v) => i64_to_string(*v),
        Object::Boolean(b) => bool_to_string(*b),
        Object::Str(s) => s.clone(),
        Object::ReturnValue(inner) => object_to_string(inner),
        Object::Function(params, body, _) => {
            let mut r = String::from_str("fn(");
            let ps = render_params(params);
            r.append(ps.as_str());
            r.append(") { ");
            let b = render_stmts(&body.body);
            r.append(b.as_str());
            r.append(" }");
            proof {
                assert(r@ =~= spec_object_str(o@));
            }
            r
        },
        Object::Builtin(_) => String::from_str("[builtin func]"),
        Object::Error(s) => s.clone(),
        Object::Null => String::from_str("null"),
    }
}

/// The mirror of a list of runtime values, elementwise.
pub open spec fn spec_view_objects(s: Seq<Object>) -> Seq<SpecObject>
    decreases s,
{
    if s.len() == 0 {
        Seq::empty()
    } else {
        spec_view_objects(s.drop_last()).push(s.last()@)
    }
}

/// Appending one value appends its mirror.
pub proof fn lemma_view_objects_push(s: Seq<Object>, e: Object)
    ensures
        spec_view_objects(s.push(e)) == spec_view_objects(s).push(e@),
{
    assert(s.push(e).drop_last() =~= s);
    assert(s.push(e).last() == e);
}

/// The elementwise mirror keeps the length.
pub proof fn lemma_view_objects_len(s: Seq<Object>)
    ensures
        spec_view_objects(s).len() == s.len(),
    decreases s.len(),
{
    if s.len() > 0 {
        lemma_view_objects_len(s.drop_last());
    }
}

/// The elementwise mirror, pointwise.
pub proof fn lemma_view_objects_index(s: Seq<Object>, i: int)
    requires
        0 <= i < s.len(),
    ensures
        spec_view_objects(s).len() == s.len(),
        spec_view_objects(s)[i] == s[i]@,
    decreases s.len(),
{
    lemma_view_objects_len(s);
    if i + 1 < s.len() {
        assert(s.drop_last()[i] == s[i]);
        lemma_view_objects_index(s.drop_last(), i);
    }
}

/// A runtime failure. Runtime errors are fail-fast: the first one aborts the
/// remainder of the evaluation and is returned to the caller as-is.
#[derive(Debug, PartialEq)]
pub enum RuntimeError {
    /// An identifier bound neither in the environment chain nor in the
    /// builtin registry.
    UnknownIdentifier(String),
    /// The callee name resolved to a value that is not a function; carries
    /// the display form of the value found.
    NotAFunction(String),
    /// The call target expression is not an identifier; carries the
    /// rendering of the expression that stood there.
    CalleeNotIdentifier(String),
    /// A call whose argument count differs from the parameter count.
    ArityMismatch { want: usize, got: usize },
    /// A function declaration whose name collides with a builtin.
    RedeclareBuiltin(String),
    /// A prefix operator other than `!` and `-`.
    InvalidPrefixOperator(TokenKind),
    /// Unary minus applied to a value that is not an integer; carries the
    /// display form of the operand.
    MinusOperandNotInteger(String),
    /// An operator the integer pairing does not support.
    InvalidIntegerOperator(TokenKind),
    /// An operator the boolean pairing does not support.
    InvalidBooleanOperator(TokenKind),
    /// An operator the string pairing does not support.
    InvalidStringOperator(TokenKind),
    /// An operand-kind pairing no operator supports.
    InvalidInfixOperands(TokenKind),
    /// Integer division by zero.
    DivisionByZero,
    /// Integer arithmetic outside the 64-bit signed range.
    IntegerOverflow,
    /// Increment/decrement of a name with no binding.
    UnaryTargetUnbound(String),
    /// Increment/decrement of a binding that is not an integer; carries
    /// the display form of the bound value.
    UnaryTargetNotInteger(String),
    /// A `for` statement: its shape is reserved in the AST and has no
    /// evaluation.
    ForUnsupported,
    /// The step budget of this evaluation ran out.
    BudgetExhausted,
}

/// The mathematical value of a `RuntimeError`.
pub enum SpecRuntimeError {
    UnknownIdentifier(Seq<char>),
    NotAFunction(Seq<char>),
    CalleeNotIdentifier(Seq<char>),
    ArityMismatch { want: nat, got: nat },
    RedeclareBuiltin(Seq<char>),
    InvalidPrefixOperator(SpecTokenKind),
    MinusOperandNotInteger(Seq<char>),
    InvalidIntegerOperator(SpecTokenKind),
    InvalidBooleanOperator(SpecTokenKind),
    InvalidStringOperator(SpecTokenKind),
    InvalidInfixOperands(SpecTokenKind),
    DivisionByZero,
    IntegerOverflow,
    UnaryTargetUnbound(Seq<char>),
    UnaryTargetNotInteger(Seq<char>),
    ForUnsupported,
    BudgetExhausted,
}

impl View for RuntimeError {
    type V = SpecRuntimeError;

    open spec fn view(&self) -> SpecRuntimeError {
        match self {
            RuntimeError::UnknownIdentifier(n) => SpecRuntimeError::UnknownIdentifier(n@),
            RuntimeError::NotAFunction(n) => SpecRuntimeError::NotAFunction(n@),
            RuntimeError::CalleeNotIdentifier(t) => SpecRuntimeError::CalleeNotIdentifier(t@),
            RuntimeError::ArityMismatch { want, got } => SpecRuntimeError::ArityMismatch {
                want: *want as nat,
                got: *got as nat,
            },
            RuntimeError::RedeclareBuiltin(n) => SpecRuntimeError::RedeclareBuiltin(n@),
            RuntimeError::InvalidPrefixOperator(k) => SpecRuntimeError::InvalidPrefixOperator(k@),
            RuntimeError::MinusOperandNotInteger(t) => SpecRuntimeError::MinusOperandNotInteger(
                t@,
            ),
            RuntimeError::InvalidIntegerOperator(k) => SpecRuntimeError::InvalidIntegerOperator(k@),
            RuntimeError::InvalidBooleanOperator(k) => SpecRuntimeError::InvalidBooleanOperator(k@),
            RuntimeError::InvalidStringOperator(k) => SpecRuntimeError::InvalidStringOperator(k@),
            RuntimeError::InvalidInfixOperands(k) => SpecRuntimeError::InvalidInfixOperands(k@),
            RuntimeError::DivisionByZero => SpecRuntimeError::DivisionByZero,
            RuntimeError::IntegerOverflow => SpecRuntimeError::IntegerOverflow,
            RuntimeError::UnaryTargetUnbound(n) => SpecRuntimeError::UnaryTargetUnbound(n@),
            RuntimeError::UnaryTargetNotInteger(n) => SpecRuntimeError::UnaryTargetNotInteger(n@),
            RuntimeError::ForUnsupported => SpecRuntimeError::ForUnsupported,
            RuntimeError::BudgetExhausted => SpecRuntimeError::BudgetExhausted,
        }
    }
}

/// The descriptive text of a runtime error.
pub open spec fn spec_runtime_error_str(e: SpecRuntimeError) -> Seq<char> {
    match e {
        SpecRuntimeError::UnknownIdentifier(n) => "unknown identifier "@ + n,
        SpecRuntimeError::NotAFunction(n) => "expected "@ + n + " to be a function"@,
        SpecRuntimeError::CalleeNotIdentifier(t) => "expected to get function declaratin from the object store but got "@
            + t,
        SpecRuntimeError::ArityMismatch { want, got } => "wrong number of arguments! wanted "@
            + spec_nat_digits(want) + " got "@ + spec_nat_digits(got),
        SpecRuntimeError::RedeclareBuiltin(n) => "redeclaring built-in function "@ + n
            + " is not allowed"@,
        SpecRuntimeError::InvalidPrefixOperator(k) => "unknown prefix operator: "@
            + spec_token_text(k),
        SpecRuntimeError::MinusOperandNotInteger(t) => "can't apply prefix minus operator: "@ + t,
        SpecRuntimeError::InvalidIntegerOperator(k) => "invalid infix operator "@ + spec_token_text(
            k,
        ) + " for integer"@,
        SpecRuntimeError::InvalidBooleanOperator(k) => "invalid infix operator for boolean: "@
            + spec_token_text(k),
        SpecRuntimeError::InvalidStringOperator(k) => "invalid infix "@ + spec_token_text(k)
            + " operator for string"@,
        SpecRuntimeError::InvalidInfixOperands(k) => "eval infix not available for operator: "@
            + spec_token_text(k),
        SpecRuntimeError::DivisionByZero => "division by zero"@,
        SpecRuntimeError::IntegerOverflow => "integer arithmetic overflow"@,
        SpecRuntimeError::UnaryTargetUnbound(n) => "variable "@ + n
            + " is not initialized and can not be operated"@,
        SpecRuntimeError::UnaryTargetNotInteger(t) => "unary operation can only performed for number objects but got "@
            + t,
        SpecRuntimeError::ForUnsupported => "for statements are reserved and not evaluated"@,
        SpecRuntimeError::BudgetExhausted => "evaluation step budget exhausted"@,
    }
}

impl RuntimeError {
    /// The descriptive text of this error.
    pub fn message(&self) -> (r: String)
        ensures
            r@ == spec_runtime_error_str(self@),
    {
        let r = match self {
            RuntimeError::UnknownIdentifier(n) => {
                let mut r = String::from_str("unknown identifier ");
                r.append(n.as_str());
                r
            },
            RuntimeError::NotAFunction(n) => {
                let mut r = String::from_str("expected ");
                r.append(n.as_str());
                r.append(" to be a function");
                r
            },
            RuntimeError::CalleeNotIdentifier(t) => {
                let mut r = String::from_str(
                    "expected to get function declaratin from the object store but got ",
                );
                r.append(t.as_str());
                r
            },
            RuntimeError::ArityMismatch { want, got } => {
                let mut r = String::from_str("wrong number of arguments! wanted ");
                let w = i64_to_string_of_usize(*want);
                r.append(w.as_str());
                r.append(" got ");
                let g = i64_to_string_of_usize(*got);
                r.append(g.as_str());
                r
            },
            RuntimeError::RedeclareBuiltin(n) => {
                let mut r = String::from_str("redeclaring built-in function ");
                r.append(n.as_str());
                r.append(" is not allowed");
                r
            },
            RuntimeError::InvalidPrefixOperator(k) => {
                let mut r = String::from_str("unknown prefix operator: ");
                let t = token_text(k);
                r.append(t.as_str());
                r
            },
            RuntimeError::MinusOperandNotInteger(t) => {
                let mut r = String::from_str("can't apply prefix minus operator: ");
                r.append(t.as_str());
                r
            },
            RuntimeError::InvalidIntegerOperator(k) => {
                let mut r = String::from_str("invalid infix operator ");
                let t = token_text(k);
                r.append(t.as_str());
                r.append(" for integer");
                r
            },
            RuntimeError::InvalidBooleanOperator(k) => {
                let mut r = String::from_str("invalid infix operator for boolean: ");
                let t = token_text(k);
                r.append(t.as_str());
                r
            },
            RuntimeError::InvalidStringOperator(k) => {
                let mut r = String::from_str("invalid infix ");
                let t = token_text(k);
                r.append(t.as_str());
                r.append(" operator for string");
                r
            },
            RuntimeError::InvalidInfixOperands(k) => {
                let mut r = String::from_str("eval infix not available for operator: ");
                let t = token_text(k);
                r.append(t.as_str());
                r
            },
            RuntimeError::DivisionByZero => String::from_str("division by zero"),
            RuntimeError::IntegerOverflow => String::from_str("integer arithmetic overflow"),
            RuntimeError::UnaryTargetUnbound(n) => {
                let mut r = String::from_str("variable ");
                r.append(n.as_str());
                r.append(" is not initialized and can not be operated");
                r
            },
            RuntimeError::UnaryTargetNotInteger(t) => {
                let mut r = String::from_str(
                    "unary operation can only performed for number objects but got ",
                );
                r.append(t.as_str());
                r
            },
            RuntimeError::ForUnsupported => String::from_str(
                "for statements are reserved and not evaluated",
            ),
            RuntimeError::BudgetExhausted => String::from_str("evaluation step budget exhausted"),
        };
        proof {
            assert(r@ =~= spec_runtime_error_str(self@));
        }
        r
    }
}

/// The decimal rendering of a count.
fn i64_to_string_of_usize(n: usize) -> (r: String)
    ensures
        r@ == spec_nat_digits(n as nat),
{
    let v = n as u64;
    let r = crate::display::u64_to_string(v);
    r
}

} // verus!
