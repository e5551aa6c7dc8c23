//! The tree-walking evaluator: recursive interpretation of AST nodes over
//! chained lexical environments, with closures, builtin dispatch, and a
//! `ReturnValue` signal for early return.
//!
//! The mathematical model is the `spec_eval_*` family: deterministic
//! functions from a node, an evaluation state (environment arena plus
//! console) and a step budget to a result and a new state. Every executable
//! function is proved to compute exactly what its model says. The budget
//! (`fuel`) bounds evaluation depth; user recursion otherwise unbounded by
//! the language runs out of budget rather than looping forever, and callers
//! pass a budget far beyond any practical program.

use vstd::prelude::*;

use crate::ast::{
    clone_block, clone_idents, BlockStatement, Expression, FunctionCall, Identifier, If, Node,
    SpecBlock, SpecExpr, SpecIdent, SpecIf, SpecLiteral, SpecStmt, Statement, UnaryOperator,
    UnaryOperatorType,
};
use crate::ast::{
    lemma_view_exprs_index, lemma_view_exprs_len, lemma_view_idents_index, lemma_view_idents_len,
    lemma_view_ifs_index, lemma_view_ifs_len, lemma_view_stmts_index, lemma_view_stmts_len,
    spec_view_alt, spec_view_exprs, spec_view_idents, spec_view_ifs, spec_view_stmts,
};
use crate::builtins::{
    builtin_lookup, lemma_view_strings_drop_first, lemma_view_strings_push, spec_builtin_lookup,
    BuiltinKind, Console, SpecConsole,
};
use crate::display::{
    bool_to_string, i64_to_string, render_expr, spec_bool_str, spec_i64_str, spec_render_expr,
};
use crate::env::{spec_env_lookup, spec_env_set, Environment, SpecScope};
use crate::object::{
    clone_object, lemma_view_objects_index, lemma_view_objects_len, object_to_string,
    spec_object_str, spec_view_objects, Object, RuntimeError, SpecObject, SpecRuntimeError,
};
use crate::token::{SpecToken, SpecTokenKind, Token, TokenKind};
use vstd::string::StringExecFns;

verus! {

/// Everything one evaluation step may read or change: the scope arena and
/// the console traffic.
pub struct SpecEvalState {
    pub env: Seq<SpecScope>,
    pub console: SpecConsole,
}

/// Whether an executable result carries exactly the model's value.
pub open spec fn eval_result_agrees(
    r: Result<Object, RuntimeError>,
    m: Result<SpecObject, SpecRuntimeError>,
) -> bool {
    match (r, m) {
        (Ok(o), Ok(mo)) => o@ == mo,
        (Err(e), Err(me)) => e@ == me,
        _ => false,
    }
}

/// Whether an executable argument-list result carries exactly the model's
/// value.
pub open spec fn args_result_agrees(
    r: Result<Vec<Object>, RuntimeError>,
    m: Result<Seq<SpecObject>, SpecRuntimeError>,
) -> bool {
    match (r, m) {
        (Ok(o), Ok(mo)) => spec_view_objects(o@) == mo,
        (Err(e), Err(me)) => e@ == me,
        _ => false,
    }
}

// ---------------------------------------------------------------------------
// The model
// ---------------------------------------------------------------------------

/// Truthiness: `null` and `false` are falsy; every other value, including
/// `0` and the empty string, is truthy.
pub open spec fn spec_is_truthy(o: SpecObject) -> bool {
    match o {
        SpecObject::Null => false,
        SpecObject::Boolean(b) => b,
        _ => true,
    }
}

/// Unwrapping the early-return signal at a function-call boundary.
pub open spec fn spec_unwrap_return(o: SpecObject) -> SpecObject {
    match o {
        SpecObject::ReturnValue(inner) => *inner,
        _ => o,
    }
}

/// The runtime value of a literal.
pub open spec fn spec_literal_object(l: SpecLiteral) -> SpecObject {
    match l {
        SpecLiteral::Integer { raw, .. } => SpecObject::Integer(raw),
        SpecLiteral::Boolean { raw, .. } => SpecObject::Boolean(raw),
        SpecLiteral::Str { raw, .. } => SpecObject::Str(raw),
    }
}

/// The generalized falsiness test `!`: `null` is true, booleans negate,
/// everything else is false.
pub open spec fn spec_prefix_bang(o: SpecObject) -> bool {
    match o {
        SpecObject::Null => true,
        SpecObject::Boolean(b) => !b,
        _ => false,
    }
}

/// A prefix operator applied to an evaluated operand: `!` tests falsiness;
/// `-` negates an integer and rejects anything else; no other prefix
/// operator exists.
pub open spec fn spec_eval_prefix(op: SpecTokenKind, v: SpecObject) -> Result<
    SpecObject,
    SpecRuntimeError,
> {
    match op {
        SpecTokenKind::Bang => Ok(SpecObject::Boolean(spec_prefix_bang(v))),
        SpecTokenKind::Minus => match v {
            SpecObject::Integer(i) => if i == i64::MIN {
                Err(SpecRuntimeError::IntegerOverflow)
            } else {
                Ok(SpecObject::Integer((-i) as i64))
            },
            _ => Err(SpecRuntimeError::MinusOperandNotInteger(spec_object_str(v))),
        },
        _ => Err(SpecRuntimeError::InvalidPrefixOperator(op)),
    }
}

/// Integer/integer infix: truncating arithmetic with typed errors for
/// overflow and division by zero, and the six comparisons.
pub open spec fn spec_eval_integer_infix(op: SpecTokenKind, a: i64, b: i64) -> Result<
    SpecObject,
    SpecRuntimeError,
> {
    match op {
        SpecTokenKind::Plus => match a.checked_add(b) {
            Some(v) => Ok(SpecObject::Integer(v)),
            None => Err(SpecRuntimeError::IntegerOverflow),
        },
        SpecTokenKind::Minus => match a.checked_sub(b) {
            Some(v) => Ok(SpecObject::Integer(v)),
            None => Err(SpecRuntimeError::IntegerOverflow),
        },
        SpecTokenKind::Asterisk => match a.checked_mul(b) {
            Some(v) => Ok(SpecObject::Integer(v)),
            None => Err(SpecRuntimeError::IntegerOverflow),
        },
        SpecTokenKind::Slash => if b == 0 {
            Err(SpecRuntimeError::DivisionByZero)
        } else {
            match a.checked_div(b) {
                Some(v) => Ok(SpecObject::Integer(v)),
                None => Err(SpecRuntimeError::IntegerOverflow),
            }
        },
        SpecTokenKind::LessThan => Ok(SpecObject::Boolean(a < b)),
        SpecTokenKind::GreaterThan => Ok(SpecObject::Boolean(a > b)),
        SpecTokenKind::LessEqual => Ok(SpecObject::Boolean(a <= b)),
        SpecTokenKind::GreaterEqual => Ok(SpecObject::Boolean(a >= b)),
        SpecTokenKind::Equal => Ok(SpecObject::Boolean(a == b)),
        SpecTokenKind::NotEqual => Ok(SpecObject::Boolean(a != b)),
        _ => Err(SpecRuntimeError::InvalidIntegerOperator(op)),
    }
}

/// Boolean/boolean infix: equality and inequality only.
pub open spec fn spec_eval_boolean_infix(op: SpecTokenKind, a: bool, b: bool) -> Result<
    SpecObject,
    SpecRuntimeError,
> {
    match op {
        SpecTokenKind::Equal => Ok(SpecObject::Boolean(a == b)),
        SpecTokenKind::NotEqual => Ok(SpecObject::Boolean(a != b)),
        _ => Err(SpecRuntimeError::InvalidBooleanOperator(op)),
    }
}

/// String/string infix: equality, inequality and concatenation.
pub open spec fn spec_eval_string_infix(op: SpecTokenKind, a: Seq<char>, b: Seq<char>) -> Result<
    SpecObject,
    SpecRuntimeError,
> {
    match op {
        SpecTokenKind::Equal => Ok(SpecObject::Boolean(a == b)),
        SpecTokenKind::NotEqual => Ok(SpecObject::Boolean(a != b)),
        SpecTokenKind::Plus => Ok(SpecObject::Str(a + b)),
        _ => Err(SpecRuntimeError::InvalidStringOperator(op)),
    }
}

/// Binary infix dispatch on the operand-type pair. When exactly one side is
/// a string and the other an integer or boolean, the other side is
/// stringified via its display form and the string rule applies.
pub open spec fn spec_eval_infix(op: SpecTokenKind, l: SpecObject, r: SpecObject) -> Result<
    SpecObject,
    SpecRuntimeError,
> {
    match (l, r) {
        (SpecObject::Integer(a), SpecObject::Integer(b)) => spec_eval_integer_infix(op, a, b),
        (SpecObject::Boolean(a), SpecObject::Boolean(b)) => spec_eval_boolean_infix(op, a, b),
        (SpecObject::Str(a), SpecObject::Str(b)) => spec_eval_string_infix(op, a, b),
        (SpecObject::Str(a), SpecObject::Integer(b)) => spec_eval_string_infix(
            op,
            a,
            spec_i64_str(b),
        ),
        (SpecObject::Integer(a), SpecObject::Str(b)) => spec_eval_string_infix(
            op,
            spec_i64_str(a),
            b,
        ),
        (SpecObject::Boolean(a), SpecObject::Str(b)) => spec_eval_string_infix(
            op,
            spec_bool_str(a),
            b,
        ),
        (SpecObject::Str(a), SpecObject::Boolean(b)) => spec_eval_string_infix(
            op,
            a,
            spec_bool_str(b),
        ),
        _ => Err(SpecRuntimeError::InvalidInfixOperands(op)),
    }
}

/// Identifier resolution: the environment chain first, then the builtin
/// registry; an identifier found in neither is an unknown-identifier error.
pub open spec fn spec_eval_identifier(name: Seq<char>, env: Seq<SpecScope>, scope: int) -> Result<
    SpecObject,
    SpecRuntimeError,
> {
    match spec_env_lookup(env, scope, name) {
        Some(o) => Ok(o),
        None => match spec_builtin_lookup(name) {
            Some(k) => Ok(SpecObject::Builtin(k)),
            None => Err(SpecRuntimeError::UnknownIdentifier(name)),
        },
    }
}

/// Pre/post increment/decrement of a named variable: the name must be bound
/// to an integer; the new value is written into the current scope; pre-forms
/// yield the new value and post-forms the old one.
pub open spec fn spec_eval_unary(
    name: Seq<char>,
    ty: UnaryOperatorType,
    env: Seq<SpecScope>,
    scope: int,
) -> (Result<SpecObject, SpecRuntimeError>, Seq<SpecScope>) {
    match spec_env_lookup(env, scope, name) {
        None => (Err(SpecRuntimeError::UnaryTargetUnbound(name)), env),
        Some(SpecObject::Integer(v)) => {
            let stepped = match ty {
                UnaryOperatorType::PreIncrement => v.checked_add(1),
                UnaryOperatorType::PostIncrement => v.checked_add(1),
                UnaryOperatorType::PreDecrement => v.checked_sub(1),
                UnaryOperatorType::PostDecrement => v.checked_sub(1),
            };
            match stepped {
                None => (Err(SpecRuntimeError::IntegerOverflow), env),
                Some(n) => {
                    let env2 = spec_env_set(env, scope, name, SpecObject::Integer(n));
                    let yielded = match ty {
                        UnaryOperatorType::PreIncrement => n,
                        UnaryOperatorType::PreDecrement => n,
                        UnaryOperatorType::PostIncrement => v,
                        UnaryOperatorType::PostDecrement => v,
                    };
                    (Ok(SpecObject::Integer(yielded)), env2)
                },
            }
        },
        Some(o) => (Err(SpecRuntimeError::UnaryTargetNotInteger(spec_object_str(o))), env),
    }
}

/// The text chunks that `print` (no newline) or `println` (a newline after
/// each argument) emit for an argument list.
pub open spec fn spec_print_texts(vals: Seq<SpecObject>, newline: bool) -> Seq<Seq<char>>
    decreases vals,
{
    if vals.len() == 0 {
        Seq::empty()
    } else {
        spec_print_texts(vals.drop_last(), newline).push(
            if newline {
                spec_object_str(vals.last()) + "\n"@
            } else {
                spec_object_str(vals.last())
            },
        )
    }
}

/// What a builtin call does to the console, and what it returns: `print` and
/// `println` emit their arguments' display forms and yield `null`; `input`
/// takes the next queued line (or yields the empty string when none is
/// left); `clear` emits the clear-screen control sequence and yields `null`.
pub open spec fn spec_apply_builtin(k: BuiltinKind, vals: Seq<SpecObject>, con: SpecConsole) -> (
    SpecObject,
    SpecConsole,
) {
    match k {
        BuiltinKind::Print => (
            SpecObject::Null,
            SpecConsole { output: con.output + spec_print_texts(vals, false), inputs: con.inputs },
        ),
        BuiltinKind::Println => (
            SpecObject::Null,
            SpecConsole { output: con.output + spec_print_texts(vals, true), inputs: con.inputs },
        ),
        BuiltinKind::Input => if con.inputs.len() > 0 {
            (
                SpecObject::Str(con.inputs[0]),
                SpecConsole { output: con.output, inputs: con.inputs.drop_first() },
            )
        } else {
            (SpecObject::Str(Seq::empty()), con)
        },
        BuiltinKind::Clear => (
            SpecObject::Null,
            SpecConsole { output: con.output.push("\u{1B}[2J\u{1B}[1;1H"@), inputs: con.inputs },
        ),
    }
}

/// The arena after binding each parameter to its argument, by position, in
/// the scope `scope`.
pub open spec fn spec_bind_params(
    env: Seq<SpecScope>,
    scope: int,
    params: Seq<SpecIdent>,
    vals: Seq<SpecObject>,
) -> Seq<SpecScope>
    decreases params.len(),
{
    if params.len() == 0 {
        env
    } else {
        spec_bind_params(
            spec_env_set(env, scope, params[0].name, vals[0]),
            scope,
            params.drop_first(),
            vals.drop_first(),
        )
    }
}

/// Evaluation of one node handed to `eval`.
pub open spec fn spec_eval_node(n: crate::ast::SpecNode, st: SpecEvalState, scope: int, fuel: nat) -> (
    Result<SpecObject, SpecRuntimeError>,
    SpecEvalState,
)
    decreases fuel, 9nat, 0nat,
{
    match n {
        crate::ast::SpecNode::Program(p) => spec_eval_block(p.body, st, scope, fuel),
        crate::ast::SpecNode::Statement(s) => spec_eval_stmt(s, st, scope, fuel),
        crate::ast::SpecNode::Expression(e) => spec_eval_expr(e, st, scope, fuel),
    }
}

/// Evaluation of a statement sequence: statements run in order in the same
/// scope; the value of the sequence is the value of the last statement run
/// (or `null` for an empty sequence); a `ReturnValue` produced by any
/// statement stops the rest of the sequence immediately and propagates
/// upward still wrapped.
pub open spec fn spec_eval_block(
    stmts: Seq<SpecStmt>,
    st: SpecEvalState,
    scope: int,
    fuel: nat,
) -> (Result<SpecObject, SpecRuntimeError>, SpecEvalState)
    decreases fuel, 8nat, stmts.len(),
{
    if stmts.len() == 0 {
        (Ok(SpecObject::Null), st)
    } else {
        let (r, st1) = spec_eval_stmt(stmts[0], st, scope, fuel);
        match r {
            Err(e) => (Err(e), st1),
            Ok(v) => if v is ReturnValue {
                (Ok(v), st1)
            } else if stmts.len() == 1 {
                (Ok(v), st1)
            } else {
                spec_eval_block(stmts.drop_first(), st1, scope, fuel)
            },
        }
    }
}

/// Evaluation of one statement.
pub open spec fn spec_eval_stmt(s: SpecStmt, st: SpecEvalState, scope: int, fuel: nat) -> (
    Result<SpecObject, SpecRuntimeError>,
    SpecEvalState,
)
    decreases fuel, 7nat, 0nat,
{
    match s {
        SpecStmt::VariableDeclaration { identifier, expr, .. } => spec_eval_var_decl(
            identifier,
            expr,
            st,
            scope,
            fuel,
        ),
        SpecStmt::Expression(e) => spec_eval_expr(e, st, scope, fuel),
        SpecStmt::If(i) => spec_eval_if(i, st, scope, fuel),
        SpecStmt::Return { argument, .. } => spec_eval_return(argument, st, scope, fuel),
        SpecStmt::Function { name, params, body, .. } => {
            let (r, env2) = spec_eval_fn_stmt(name, params, body, st.env, scope);
            (r, SpecEvalState { env: env2, console: st.console })
        },
        SpecStmt::For(_) => (Err(SpecRuntimeError::ForUnsupported), st),
    }
}

/// A variable declaration evaluates its initializer, binds it in the
/// current scope under the identifier's name, and yields `null`.
pub open spec fn spec_eval_var_decl(
    identifier: SpecToken,
    expr: SpecExpr,
    st: SpecEvalState,
    scope: int,
    fuel: nat,
) -> (Result<SpecObject, SpecRuntimeError>, SpecEvalState)
    decreases fuel, 6nat, 0nat,
{
    let (r, st1) = spec_eval_expr(expr, st, scope, fuel);
    match r {
        Err(e) => (Err(e), st1),
        Ok(v) => match identifier.kind {
            SpecTokenKind::Identifier { name } => (
                Ok(SpecObject::Null),
                SpecEvalState { env: spec_env_set(st1.env, scope, name, v), console: st1.console },
            ),
            _ => (Ok(SpecObject::Null), st1),
        },
    }
}

/// A `ret` statement evaluates its argument and wraps it as a
/// `ReturnValue`.
pub open spec fn spec_eval_return(argument: SpecExpr, st: SpecEvalState, scope: int, fuel: nat) -> (
    Result<SpecObject, SpecRuntimeError>,
    SpecEvalState,
)
    decreases fuel, 6nat, 0nat,
{
    let (r, st1) = spec_eval_expr(argument, st, scope, fuel);
    match r {
        Err(e) => (Err(e), st1),
        Ok(v) => (Ok(SpecObject::ReturnValue(Box::new(v))), st1),
    }
}

/// An `if` chain: the condition is evaluated, and if truthy the consequent
/// block's value is the statement's value; otherwise the `else if` clauses
/// are tried in source order; if none is truthy, the `else` block runs if
/// present, else the value is `null`.
pub open spec fn spec_eval_if(i: SpecIf, st: SpecEvalState, scope: int, fuel: nat) -> (
    Result<SpecObject, SpecRuntimeError>,
    SpecEvalState,
)
    decreases fuel, 6nat, i.branches.len() + 1,
{
    if fuel == 0 {
        (Err(SpecRuntimeError::BudgetExhausted), st)
    } else {
        let (rc, st1) = spec_eval_expr(*i.condition, st, scope, fuel);
        match rc {
            Err(e) => (Err(e), st1),
            Ok(c) => if spec_is_truthy(c) {
                spec_eval_block(i.consequent.body, st1, scope, (fuel - 1) as nat)
            } else {
                spec_eval_elifs(i.branches, i.alternate, st1, scope, fuel)
            },
        }
    }
}

/// The `else if` clauses of an `if` chain, tried in order, then the `else`
/// block if none was taken.
pub open spec fn spec_eval_elifs(
    branches: Seq<SpecIf>,
    alternate: Option<SpecBlock>,
    st: SpecEvalState,
    scope: int,
    fuel: nat,
) -> (Result<SpecObject, SpecRuntimeError>, SpecEvalState)
    decreases fuel, 6nat, branches.len(),
{
    if fuel == 0 {
        (Err(SpecRuntimeError::BudgetExhausted), st)
    } else if branches.len() == 0 {
        match alternate {
            Some(b) => spec_eval_block(b.body, st, scope, (fuel - 1) as nat),
            None => (Ok(SpecObject::Null), st),
        }
    } else {
        let (rc, st1) = spec_eval_expr(*branches[0].condition, st, scope, fuel);
        match rc {
            Err(e) => (Err(e), st1),
            Ok(c) => if spec_is_truthy(c) {
                spec_eval_block(branches[0].consequent.body, st1, scope, (fuel - 1) as nat)
            } else {
                spec_eval_elifs(branches.drop_first(), alternate, st1, scope, fuel)
            },
        }
    }
}

/// A function declaration binds a function value capturing the current
/// scope under its name and yields `null`; a name that collides with a
/// builtin is rejected and the environment is left unchanged.
pub open spec fn spec_eval_fn_stmt(
    name: Seq<char>,
    params: Seq<SpecIdent>,
    body: SpecBlock,
    env: Seq<SpecScope>,
    scope: int,
) -> (Result<SpecObject, SpecRuntimeError>, Seq<SpecScope>) {
    match spec_builtin_lookup(name) {
        Some(_) => (Err(SpecRuntimeError::RedeclareBuiltin(name)), env),
        None => (
            Ok(SpecObject::Null),
            spec_env_set(env, scope, name, SpecObject::Function(params, body, scope)),
        ),
    }
}

/// Evaluation of one expression.
pub open spec fn spec_eval_expr(e: SpecExpr, st: SpecEvalState, scope: int, fuel: nat) -> (
    Result<SpecObject, SpecRuntimeError>,
    SpecEvalState,
)
    decreases fuel, 5nat, 0nat,
{
    if fuel == 0 {
        (Err(SpecRuntimeError::BudgetExhausted), st)
    } else {
        match e {
            SpecExpr::Identifier(i) => (spec_eval_identifier(i.name, st.env, scope), st),
            SpecExpr::Literal(l) => (Ok(spec_literal_object(l)), st),
            SpecExpr::Prefix { operator, operand, .. } => {
                let (r, st1) = spec_eval_expr(*operand, st, scope, (fuel - 1) as nat);
                match r {
                    Err(er) => (Err(er), st1),
                    Ok(v) => (spec_eval_prefix(operator.kind, v), st1),
                }
            },
            SpecExpr::Infix { operator, left, right, .. } => {
                let (rl, st1) = spec_eval_expr(*left, st, scope, (fuel - 1) as nat);
                match rl {
                    Err(er) => (Err(er), st1),
                    Ok(a) => {
                        let (rr, st2) = spec_eval_expr(*right, st1, scope, (fuel - 1) as nat);
                        match rr {
                            Err(er) => (Err(er), st2),
                            Ok(b) => (spec_eval_infix(operator.kind, a, b), st2),
                        }
                    },
                }
            },
            SpecExpr::UnaryOperator { identifier, ty, .. } => {
                let (r, env2) = spec_eval_unary(identifier.name, ty, st.env, scope);
                (r, SpecEvalState { env: env2, console: st.console })
            },
            SpecExpr::FunctionCall { call, arguments, .. } => spec_eval_call(
                *call,
                arguments,
                st,
                scope,
                fuel,
            ),
        }
    }
}

/// A call expression. The callee must be a name. The arguments are
/// evaluated left to right; the name resolves in the environment chain
/// first (user bindings shadow builtins), and only a name bound nowhere in
/// the chain reaches the builtin registry and invokes the native function.
/// A chain binding must be a function value whose parameter count equals
/// the argument count; its body runs in a brand-new scope whose parent is
/// the function's captured scope, and a wrapped `ReturnValue` is unwrapped
/// at this boundary.
pub open spec fn spec_eval_call(
    callee: SpecExpr,
    args: Seq<SpecExpr>,
    st: SpecEvalState,
    scope: int,
    fuel: nat,
) -> (Result<SpecObject, SpecRuntimeError>, SpecEvalState)
    decreases fuel, 4nat, 0nat,
{
    match callee {
        SpecExpr::Identifier(i) => {
            let (ra, st1) = spec_eval_args(args, st, scope, fuel);
            match ra {
                Err(e) => (Err(e), st1),
                Ok(vals) => match spec_env_lookup(st1.env, scope, i.name) {
                    None => match spec_builtin_lookup(i.name) {
                        Some(k) => {
                            let (res, con) = spec_apply_builtin(k, vals, st1.console);
                            (Ok(res), SpecEvalState { env: st1.env, console: con })
                        },
                        None => (Err(SpecRuntimeError::UnknownIdentifier(i.name)), st1),
                    },
                    Some(bound) => match bound {
                        SpecObject::Function(params, body, cap) => {
                            if params.len() != vals.len() {
                                (
                                    Err(
                                        SpecRuntimeError::ArityMismatch {
                                            want: params.len(),
                                            got: vals.len(),
                                        },
                                    ),
                                    st1,
                                )
                            } else if fuel == 0 {
                                (Err(SpecRuntimeError::BudgetExhausted), st1)
                            } else {
                                let newscope = st1.env.len() as int;
                                let env2 = st1.env.push(
                                    SpecScope { bindings: Seq::empty(), parent: Some(cap) },
                                );
                                let env3 = spec_bind_params(env2, newscope, params, vals);
                                let (rb, st2) = spec_eval_block(
                                    body.body,
                                    SpecEvalState { env: env3, console: st1.console },
                                    newscope,
                                    (fuel - 1) as nat,
                                );
                                match rb {
                                    Err(e) => (Err(e), st2),
                                    Ok(v) => (Ok(spec_unwrap_return(v)), st2),
                                }
                            }
                        },
                        _ => (Err(SpecRuntimeError::NotAFunction(spec_object_str(bound))), st1),
                    },
                },
            }
        },
        _ => (Err(SpecRuntimeError::CalleeNotIdentifier(spec_render_expr(callee))), st),
    }
}

/// Left-to-right evaluation of an argument list; the first error aborts the
/// rest.
pub open spec fn spec_eval_args(args: Seq<SpecExpr>, st: SpecEvalState, scope: int, fuel: nat) -> (
    Result<Seq<SpecObject>, SpecRuntimeError>,
    SpecEvalState,
)
    decreases fuel, 3nat, args.len(),
{
    if args.len() == 0 {
        (Ok(Seq::empty()), st)
    } else if fuel == 0 {
        (Err(SpecRuntimeError::BudgetExhausted), st)
    } else {
        let (r, st1) = spec_eval_expr(args[0], st, scope, (fuel - 1) as nat);
        match r {
            Err(e) => (Err(e), st1),
            Ok(v) => {
                let (rr, st2) = spec_eval_args(args.drop_first(), st1, scope, fuel);
                match rr {
                    Err(e) => (Err(e), st2),
                    Ok(vs) => (Ok(seq![v] + vs), st2),
                }
            },
        }
    }
}

// ---------------------------------------------------------------------------
// Executable leaves
// ---------------------------------------------------------------------------

/// Truthiness of a runtime value.
pub fn is_truthy(o: &Object) -> (r: bool)
    ensures
        r == spec_is_truthy(o@),
{
    match o {
        Object::Null => false,
        Object::Boolean(b) => *b,
        _ => true,
    }
}

/// Unwrap a `ReturnValue` at a function-call boundary; any other value
/// passes through unchanged.
pub fn unwrap_return(o: Object) -> (r: Object)
    ensures
        r@ == spec_unwrap_return(o@),
{
    match o {
        Object::ReturnValue(inner) => *inner,
        other => other,
    }
}

/// A call's argument count must equal the parameter count.
pub fn validate_func_args_len(params_len: usize, args_len: usize) -> (r: Result<
    (),
    RuntimeError,
>)
    ensures
        params_len == args_len <==> r is Ok,
        params_len != args_len ==> r == Err::<(), RuntimeError>(
            RuntimeError::ArityMismatch { want: params_len, got: args_len },
        ),
{
    if params_len != args_len {
        Err(RuntimeError::ArityMismatch { want: params_len, got: args_len })
    } else {
        Ok(())
    }
}

/// The runtime value of a literal.
pub fn eval_literal(l: &crate::ast::Literal) -> (r: Result<Object, RuntimeError>)
    ensures
        eval_result_agrees(r, Ok(spec_literal_object(l@))),
{
    match l {
        crate::ast::Literal::Integer(i) => Ok(Object::Integer(i.raw)),
        crate::ast::Literal::Boolean(b) => Ok(Object::Boolean(b.raw)),
        crate::ast::Literal::Str(s) => Ok(Object::Str(s.raw.clone())),
    }
}

/// The generalized falsiness test `!`.
pub fn eval_prefix_bang(v: &Object) -> (r: Result<Object, RuntimeError>)
    ensures
        eval_result_agrees(r, Ok(SpecObject::Boolean(spec_prefix_bang(v@)))),
{
    match v {
        Object::Null => Ok(Object::Boolean(true)),
        Object::Boolean(b) => Ok(Object::Boolean(!*b)),
        _ => Ok(Object::Boolean(false)),
    }
}

/// Unary minus: negate an integer; any other operand is a type error.
pub fn eval_prefix_minus(v: &Object) -> (r: Result<Object, RuntimeError>)
    ensures
        eval_result_agrees(
            r,
            match v@ {
                SpecObject::Integer(i) => if i == i64::MIN {
                    Err(SpecRuntimeError::IntegerOverflow)
                } else {
                    Ok(SpecObject::Integer((-i) as i64))
                },
                _ => Err(SpecRuntimeError::MinusOperandNotInteger(spec_object_str(v@))),
            },
        ),
{
    match v {
        Object::Integer(i) => if *i == i64::MIN {
            Err(RuntimeError::IntegerOverflow)
        } else {
            Ok(Object::Integer(-*i))
        },
        _ => Err(RuntimeError::MinusOperandNotInteger(object_to_string(v))),
    }
}

/// A prefix operator applied to an evaluated operand.
pub fn eval_prefix(op: &TokenKind, v: &Object) -> (r: Result<Object, RuntimeError>)
    ensures
        eval_result_agrees(r, spec_eval_prefix(op@, v@)),
{
    match op {
        TokenKind::Bang => eval_prefix_bang(v),
        TokenKind::Minus => eval_prefix_minus(v),
        _ => Err(RuntimeError::InvalidPrefixOperator(op.clone())),
    }
}

/// Integer/integer infix.
pub fn eval_integer_infix(op: &TokenKind, a: i64, b: i64) -> (r: Result<Object, RuntimeError>)
    ensures
        eval_result_agrees(r, spec_eval_integer_infix(op@, a, b)),
{
    match op {
        TokenKind::Plus => match a.checked_add(b) {
            Some(v) => Ok(Object::Integer(v)),
            None => Err(RuntimeError::IntegerOverflow),
        },
        TokenKind::Minus => match a.checked_sub(b) {
            Some(v) => Ok(Object::Integer(v)),
            None => Err(RuntimeError::IntegerOverflow),
        },
        TokenKind::Asterisk => match a.checked_mul(b) {
            Some(v) => Ok(Object::Integer(v)),
            None => Err(RuntimeError::IntegerOverflow),
        },
        TokenKind::Slash => if b == 0 {
            Err(RuntimeError::DivisionByZero)
        } else {
            match a.checked_div(b) {
                Some(v) => Ok(Object::Integer(v)),
                None => Err(RuntimeError::IntegerOverflow),
            }
        },
        TokenKind::LessThan => Ok(Object::Boolean(a < b)),
        TokenKind::GreaterThan => Ok(Object::Boolean(a > b)),
        TokenKind::LessEqual => Ok(Object::Boolean(a <= b)),
        TokenKind::GreaterEqual => Ok(Object::Boolean(a >= b)),
        TokenKind::Equal => Ok(Object::Boolean(a == b)),
        TokenKind::NotEqual => Ok(Object::Boolean(a != b)),
        _ => Err(RuntimeError::InvalidIntegerOperator(op.clone())),
    }
}

/// Boolean/boolean infix.
pub fn eval_boolean_infix(op: &TokenKind, a: bool, b: bool) -> (r: Result<Object, RuntimeError>)
    ensures
        eval_result_agrees(r, spec_eval_boolean_infix(op@, a, b)),
{
    match op {
        TokenKind::Equal => Ok(Object::Boolean(a == b)),
        TokenKind::NotEqual => Ok(Object::Boolean(a != b)),
        _ => Err(RuntimeError::InvalidBooleanOperator(op.clone())),
    }
}

/// String/string infix.
pub fn eval_string_infix(op: &TokenKind, a: &String, b: &String) -> (r: Result<
    Object,
    RuntimeError,
>)
    ensures
        eval_result_agrees(r, spec_eval_string_infix(op@, a@, b@)),
{
    match op {
        TokenKind::Equal => Ok(Object::Boolean(crate::token::str_eq(a.as_str(), b.as_str()))),
        TokenKind::NotEqual => Ok(Object::Boolean(!crate::token::str_eq(a.as_str(), b.as_str()))),
        TokenKind::Plus => {
            let joined = a.clone().concat(b.as_str());
            Ok(Object::Str(joined))
        },
        _ => Err(RuntimeError::InvalidStringOperator(op.clone())),
    }
}

/// Binary infix dispatch on the operand-type pair.
pub fn eval_infix(op: &TokenKind, left: &Object, right: &Object) -> (r: Result<
    Object,
    RuntimeError,
>)
    ensures
        eval_result_agrees(r, spec_eval_infix(op@, left@, right@)),
{
    match (left, right) {
        (Object::Integer(a), Object::Integer(b)) => eval_integer_infix(op, *a, *b),
        (Object::Boolean(a), Object::Boolean(b)) => eval_boolean_infix(op, *a, *b),
        (Object::Str(a), Object::Str(b)) => eval_string_infix(op, a, b),
        (Object::Str(a), Object::Integer(b)) => {
            let t = i64_to_string(*b);
            eval_string_infix(op, a, &t)
        },
        (Object::Integer(a), Object::Str(b)) => {
            let t = i64_to_string(*a);
            eval_string_infix(op, &t, b)
        },
        (Object::Boolean(a), Object::Str(b)) => {
            let t = bool_to_string(*a);
            eval_string_infix(op, &t, b)
        },
        (Object::Str(a), Object::Boolean(b)) => {
            let t = bool_to_string(*b);
            eval_string_infix(op, a, &t)
        },
        _ => Err(RuntimeError::InvalidInfixOperands(op.clone())),
    }
}

/// Identifier resolution: environment chain first, then the builtin
/// registry.
pub fn eval_identifier(name: &str, env: &Environment, scope: usize) -> (r: Result<
    Object,
    RuntimeError,
>)
    requires
        scope < env@.len(),
    ensures
        eval_result_agrees(r, spec_eval_identifier(name@, env@, scope as int)),
{
    match env.get(scope, name) {
        Some(o) => Ok(o),
        None => match builtin_lookup(name) {
            Some(k) => Ok(Object::Builtin(k)),
            None => Err(RuntimeError::UnknownIdentifier(name.to_owned())),
        },
    }
}

/// Pre/post increment/decrement of a named variable.
pub fn eval_unary_operator(u: &UnaryOperator, env: &mut Environment, scope: usize) -> (r: Result<
    Object,
    RuntimeError,
>)
    requires
        scope < old(env)@.len(),
    ensures
        final(env)@.len() >= old(env)@.len(),
        ({
            let (m, env2) = spec_eval_unary(u.identifier.name@, u.ty, old(env)@, scope as int);
            eval_result_agrees(r, m) && final(env)@ == env2
        }),
{
    match env.get(scope, u.identifier.name.as_str()) {
        None => Err(RuntimeError::UnaryTargetUnbound(u.identifier.name.clone())),
        Some(obj) => match obj {
            Object::Integer(v) => {
                let stepped = match u.ty {
                    UnaryOperatorType::PreIncrement => v.checked_add(1),
                    UnaryOperatorType::PostIncrement => v.checked_add(1),
                    UnaryOperatorType::PreDecrement => v.checked_sub(1),
                    UnaryOperatorType::PostDecrement => v.checked_sub(1),
                };
                match stepped {
                    None => Err(RuntimeError::IntegerOverflow),
                    Some(n) => {
                        env.set(scope, u.identifier.name.clone(), Object::Integer(n));
                        match u.ty {
                            UnaryOperatorType::PreIncrement => Ok(Object::Integer(n)),
                            UnaryOperatorType::PreDecrement => Ok(Object::Integer(n)),
                            UnaryOperatorType::PostIncrement => Ok(Object::Integer(v)),
                            UnaryOperatorType::PostDecrement => Ok(Object::Integer(v)),
                        }
                    },
                }
            },
            other => Err(RuntimeError::UnaryTargetNotInteger(object_to_string(&other))),
        },
    }
}

/// Invoke a builtin on evaluated arguments.
pub fn apply_builtin(k: BuiltinKind, vals: &Vec<Object>, console: &mut Console) -> (r: Object)
    ensures
        ({
            let (m, con2) = spec_apply_builtin(k, spec_view_objects(vals@), old(console)@);
            r@ == m && final(console)@ == con2
        }),
{
    match k {
        BuiltinKind::Print => {
            print_values(vals, console, false);
            Object::Null
        },
        BuiltinKind::Println => {
            print_values(vals, console, true);
            Object::Null
        },
        BuiltinKind::Input => {
            if console.inputs.len() > 0 {
                let ghost pre = console.inputs@;
                let line = console.inputs.remove(0);
                proof {
                    assert(console.inputs@ =~= pre.drop_first());
                    lemma_view_strings_drop_first(pre);
                }
                Object::Str(line)
            } else {
                Object::Str(String::new())
            }
        },
        BuiltinKind::Clear => {
            let ghost pre = console.output@;
            console.output.push(String::from_str("\u{1B}[2J\u{1B}[1;1H"));
            proof {
                lemma_view_strings_push(pre, console.output@.last());
                assert(console@.output =~= old(console)@.output.push("\u{1B}[2J\u{1B}[1;1H"@));
            }
            Object::Null
        },
    }
}

// ---------------------------------------------------------------------------
// Laws
// ---------------------------------------------------------------------------

/// Evaluating a bare identifier bound neither in the environment chain nor
/// in the builtin registry fails with an unknown-identifier error, never a
/// crash.
pub proof fn lemma_unknown_identifier(name: Seq<char>, env: Seq<SpecScope>, scope: int)
    requires
        spec_env_lookup(env, scope, name) is None,
        spec_builtin_lookup(name) is None,
    ensures
        spec_eval_identifier(name, env, scope) == Err::<SpecObject, SpecRuntimeError>(
            SpecRuntimeError::UnknownIdentifier(name),
        ),
{
}

/// Declaring a function whose name collides with an entry of the builtin
/// registry fails with a redeclaring-built-in error and leaves the
/// environment unchanged, so the existing builtin stays usable.
pub proof fn lemma_builtin_redeclaration_rejected(
    name: Seq<char>,
    params: Seq<SpecIdent>,
    body: SpecBlock,
    env: Seq<SpecScope>,
    scope: int,
)
    requires
        spec_builtin_lookup(name) is Some,
    ensures
        ({
            let (r, env2) = spec_eval_fn_stmt(name, params, body, env, scope);
            r == Err::<SpecObject, SpecRuntimeError>(SpecRuntimeError::RedeclareBuiltin(name))
                && env2 == env
        }),
{
}

/// Integer division by zero fails with a typed arithmetic error, whatever
/// the dividend; it never terminates the host process.
pub proof fn lemma_division_by_zero(a: i64)
    ensures
        spec_eval_integer_infix(SpecTokenKind::Slash, a, 0) == Err::<SpecObject, SpecRuntimeError>(
            SpecRuntimeError::DivisionByZero,
        ),
{
}

/// Block evaluation stops at the first wrapped `ReturnValue`: when the
/// first statement of a nonempty sequence yields one, the remaining
/// statements do not run, and the wrapped value propagates upward as the
/// sequence's result.
pub proof fn lemma_block_short_circuit(
    stmts: Seq<SpecStmt>,
    st: SpecEvalState,
    scope: int,
    fuel: nat,
)
    requires
        stmts.len() > 0,
        spec_eval_stmt(stmts[0], st, scope, fuel).0 is Ok,
        spec_eval_stmt(stmts[0], st, scope, fuel).0->Ok_0 is ReturnValue,
    ensures
        spec_eval_block(stmts, st, scope, fuel) == (
            spec_eval_stmt(stmts[0], st, scope, fuel).0,
            spec_eval_stmt(stmts[0], st, scope, fuel).1,
        ),
{
}

/// Binding parameters touches only the bindings of the target scope: the
/// arena keeps its length and every scope keeps its parent link.
pub proof fn lemma_bind_params_keeps_structure(
    env: Seq<SpecScope>,
    scope: int,
    params: Seq<SpecIdent>,
    vals: Seq<SpecObject>,
)
    requires
        0 <= scope < env.len(),
    ensures
        spec_bind_params(env, scope, params, vals).len() == env.len(),
        forall|i: int| 0 <= i < env.len() ==> #[trigger] spec_bind_params(
            env,
            scope,
            params,
            vals,
        )[i].parent == env[i].parent,
    decreases params.len(),
{
    if params.len() > 0 {
        lemma_bind_params_keeps_structure(
            spec_env_set(env, scope, params[0].name, vals[0]),
            scope,
            params.drop_first(),
            vals.drop_first(),
        );
    }
}

/// Lexical scoping: a call of a function value runs its body in a
/// brand-new scope whose enclosing scope is the function's captured scope,
/// never the caller's. The scope the body runs in is the one pushed at the
/// end of the arena, and its parent link is exactly the captured index.
pub proof fn lemma_call_uses_captured_scope(
    env: Seq<SpecScope>,
    scope: int,
    params: Seq<SpecIdent>,
    vals: Seq<SpecObject>,
    cap: int,
)
    requires
        0 <= env.len(),
    ensures
        ({
            let newscope = env.len() as int;
            let env2 = env.push(SpecScope { bindings: Seq::empty(), parent: Some(cap) });
            let env3 = spec_bind_params(env2, newscope, params, vals);
            env3.len() == env.len() + 1 && env3[newscope].parent == Some(cap)
        }),
{
    let newscope = env.len() as int;
    let env2 = env.push(SpecScope { bindings: Seq::empty(), parent: Some(cap) });
    lemma_bind_params_keeps_structure(env2, newscope, params, vals);
}

// ---------------------------------------------------------------------------
// The recursive interpreter
// ---------------------------------------------------------------------------

/// Whether a value is the early-return signal.
fn is_return_value(o: &Object) -> (r: bool)
    ensures
        r == (o@ is ReturnValue),
{
    match o {
        Object::ReturnValue(_) => true,
        _ => false,
    }
}

/// The mirror of prepending one value.
proof fn lemma_view_objects_insert0(s: Seq<Object>, v: Object)
    ensures
        spec_view_objects(s.insert(0, v)) == seq![v@] + spec_view_objects(s),
{
    let t = s.insert(0, v);
    lemma_view_objects_len(s);
    lemma_view_objects_len(t);
    assert forall|j: int| 0 <= j < t.len() implies spec_view_objects(t)[j] == (seq![v@]
        + spec_view_objects(s))[j] by {
        lemma_view_objects_index(t, j);
        if j > 0 {
            lemma_view_objects_index(s, j - 1);
            assert(t[j] == s[j - 1]);
        } else {
            assert(t[0] == v);
        }
    }
    assert(spec_view_objects(t) =~= seq![v@] + spec_view_objects(s));
}

/// Evaluate a node: the sole entry point into execution. A program or block
/// yields the value of its last statement; callers supply the scope to run
/// in (the root scope of a fresh environment for an independent run) and a
/// step budget.
pub fn eval(
    node: &Node,
    env: &mut Environment,
    scope: usize,
    console: &mut Console,
    fuel: u64,
) -> (r: Result<Object, RuntimeError>)
    requires
        scope < old(env)@.len(),
    ensures
        final(env)@.len() >= old(env)@.len(),
        ({
            let (m, st2) = spec_eval_node(
                node@,
                SpecEvalState { env: old(env)@, console: old(console)@ },
                scope as int,
                fuel as nat,
            );
            eval_result_agrees(r, m) && final(env)@ == st2.env && final(console)@ == st2.console
        }),
    decreases fuel, 9int, 0int,
{
    match node {
        Node::Program(p) => eval_block_statements(&p.body, env, scope, console, fuel),
        Node::Statement(s) => eval_statement(s, env, scope, console, fuel),
        Node::Expression(e) => eval_expression(e, env, scope, console, fuel),
    }
}

/// Evaluate a statement sequence in one scope, stopping early on an error
/// or on a wrapped `ReturnValue`.
pub fn eval_block_statements(
    stmts: &Vec<Statement>,
    env: &mut Environment,
    scope: usize,
    console: &mut Console,
    fuel: u64,
) -> (r: Result<Object, RuntimeError>)
    requires
        scope < old(env)@.len(),
    ensures
        final(env)@.len() >= old(env)@.len(),
        ({
            let (m, st2) = spec_eval_block(
                spec_view_stmts(stmts@),
                SpecEvalState { env: old(env)@, console: old(console)@ },
                scope as int,
                fuel as nat,
            );
            eval_result_agrees(r, m) && final(env)@ == st2.env && final(console)@ == st2.console
        }),
    decreases fuel, 8int, stmts@.len() + 1,
{
    proof {
        lemma_view_stmts_len(stmts@);
        assert(spec_view_stmts(stmts@).subrange(0, stmts@.len() as int) =~= spec_view_stmts(
            stmts@,
        ));
    }
    eval_block_from(stmts, 0, env, scope, console, fuel)
}

/// Evaluate the statements from position `i` on.
fn eval_block_from(
    stmts: &Vec<Statement>,
    i: usize,
    env: &mut Environment,
    scope: usize,
    console: &mut Console,
    fuel: u64,
) -> (r: Result<Object, RuntimeError>)
    requires
        scope < old(env)@.len(),
        i <= stmts@.len(),
        spec_view_stmts(stmts@).len() == stmts@.len(),
    ensures
        final(env)@.len() >= old(env)@.len(),
        ({
            let (m, st2) = spec_eval_block(
                spec_view_stmts(stmts@).subrange(i as int, stmts@.len() as int),
                SpecEvalState { env: old(env)@, console: old(console)@ },
                scope as int,
                fuel as nat,
            );
            eval_result_agrees(r, m) && final(env)@ == st2.env && final(console)@ == st2.console
        }),
    decreases fuel, 8int, stmts@.len() - i,
{
    let ghost suffix = spec_view_stmts(stmts@).subrange(i as int, stmts@.len() as int);
    if i == stmts.len() {
        return Ok(Object::Null);
    }
    proof {
        lemma_view_stmts_index(stmts@, i as int);
        assert(suffix[0] == spec_view_stmts(stmts@)[i as int]);
        assert(suffix.drop_first() =~= spec_view_stmts(stmts@).subrange(
            i as int + 1,
            stmts@.len() as int,
        ));
    }
    let v = match eval_statement(&stmts[i], env, scope, console, fuel) {
        Ok(v) => v,
        Err(e) => {
            return Err(e);
        },
    };
    if is_return_value(&v) {
        return Ok(v);
    }
    if i + 1 == stmts.len() {
        return Ok(v);
    }
    eval_block_from(stmts, i + 1, env, scope, console, fuel)
}

/// Evaluate one statement.
pub fn eval_statement(
    s: &Statement,
    env: &mut Environment,
    scope: usize,
    console: &mut Console,
    fuel: u64,
) -> (r: Result<Object, RuntimeError>)
    requires
        scope < old(env)@.len(),
    ensures
        final(env)@.len() >= old(env)@.len(),
        ({
            let (m, st2) = spec_eval_stmt(
                s@,
                SpecEvalState { env: old(env)@, console: old(console)@ },
                scope as int,
                fuel as nat,
            );
            eval_result_agrees(r, m) && final(env)@ == st2.env && final(console)@ == st2.console
        }),
    decreases fuel, 7int, 0int,
{
    match s {
        Statement::VariableDeclaration(v) => eval_variable_declaration(
            &v.identifier,
            &v.expr,
            env,
            scope,
            console,
            fuel,
        ),
        Statement::Expression(e) => eval_expression(e, env, scope, console, fuel),
        Statement::If(i) => eval_if_statement(i, env, scope, console, fuel),
        Statement::Return(ret) => eval_return_statement(&ret.argument, env, scope, console, fuel),
        Statement::Function(f) => eval_function_statement(&f.name, &f.params, &f.body, env, scope),
        Statement::For(_) => Err(RuntimeError::ForUnsupported),
    }
}

/// Evaluate the initializer and bind it in the current scope under the
/// identifier's name; the statement itself yields `null`.
pub fn eval_variable_declaration(
    identifier: &Token,
    expr: &Expression,
    env: &mut Environment,
    scope: usize,
    console: &mut Console,
    fuel: u64,
) -> (r: Result<Object, RuntimeError>)
    requires
        scope < old(env)@.len(),
    ensures
        final(env)@.len() >= old(env)@.len(),
        ({
            let (m, st2) = spec_eval_var_decl(
                identifier@,
                expr@,
                SpecEvalState { env: old(env)@, console: old(console)@ },
                scope as int,
                fuel as nat,
            );
            eval_result_agrees(r, m) && final(env)@ == st2.env && final(console)@ == st2.console
        }),
    decreases fuel, 6int, 0int,
{
    let v = match eval_expression(expr, env, scope, console, fuel) {
        Ok(v) => v,
        Err(e) => {
            return Err(e);
        },
    };
    match &identifier.kind {
        TokenKind::Identifier { name } => {
            env.set(scope, name.clone(), v);
        },
        _ => {},
    }
    Ok(Object::Null)
}

/// Evaluate the argument and wrap it as the early-return signal.
pub fn eval_return_statement(
    argument: &Expression,
    env: &mut Environment,
    scope: usize,
    console: &mut Console,
    fuel: u64,
) -> (r: Result<Object, RuntimeError>)
    requires
        scope < old(env)@.len(),
    ensures
        final(env)@.len() >= old(env)@.len(),
        ({
            let (m, st2) = spec_eval_return(
                argument@,
                SpecEvalState { env: old(env)@, console: old(console)@ },
                scope as int,
                fuel as nat,
            );
            eval_result_agrees(r, m) && final(env)@ == st2.env && final(console)@ == st2.console
        }),
    decreases fuel, 6int, 0int,
{
    let v = match eval_expression(argument, env, scope, console, fuel) {
        Ok(v) => v,
        Err(e) => {
            return Err(e);
        },
    };
    Ok(Object::ReturnValue(Box::new(v)))
}

/// Evaluate an `if` chain: the first truthy condition selects its block; an
/// `else` block runs if no condition was truthy; otherwise the value is
/// `null`.
#[verifier::rlimit(60)]
pub fn eval_if_statement(
    i: &If,
    env: &mut Environment,
    scope: usize,
    console: &mut Console,
    fuel: u64,
) -> (r: Result<Object, RuntimeError>)
    requires
        scope < old(env)@.len(),
    ensures
        final(env)@.len() >= old(env)@.len(),
        ({
            let (m, st2) = spec_eval_if(
                i@,
                SpecEvalState { env: old(env)@, console: old(console)@ },
                scope as int,
                fuel as nat,
            );
            eval_result_agrees(r, m) && final(env)@ == st2.env && final(console)@ == st2.console
        }),
    decreases fuel, 6int, i.branches@.len() + 1,
{
    if fuel == 0 {
        return Err(RuntimeError::BudgetExhausted);
    }
    let c = match eval_expression(&i.condition, env, scope, console, fuel) {
        Ok(v) => v,
        Err(e) => {
            return Err(e);
        },
    };
    if is_truthy(&c) {
        return eval_block_statements(&i.consequent.body, env, scope, console, fuel - 1);
    }
    proof {
        lemma_view_ifs_len(i.branches@);
        assert(spec_view_ifs(i.branches@).subrange(0, i.branches@.len() as int) =~= spec_view_ifs(
            i.branches@,
        ));
    }
    eval_elif_branches(&i.branches, 0, &i.alternate, env, scope, console, fuel)
}

/// Try the `else if` clauses from position `bi` on, then the `else` block.
fn eval_elif_branches(
    branches: &Vec<If>,
    bi: usize,
    alternate: &Option<Box<BlockStatement>>,
    env: &mut Environment,
    scope: usize,
    console: &mut Console,
    fuel: u64,
) -> (r: Result<Object, RuntimeError>)
    requires
        scope < old(env)@.len(),
        bi <= branches@.len(),
        spec_view_ifs(branches@).len() == branches@.len(),
    ensures
        final(env)@.len() >= old(env)@.len(),
        ({
            let (m, st2) = spec_eval_elifs(
                spec_view_ifs(branches@).subrange(bi as int, branches@.len() as int),
                spec_view_alt(*alternate),
                SpecEvalState { env: old(env)@, console: old(console)@ },
                scope as int,
                fuel as nat,
            );
            eval_result_agrees(r, m) && final(env)@ == st2.env && final(console)@ == st2.console
        }),
    decreases fuel, 6int, branches@.len() - bi,
{
    if fuel == 0 {
        return Err(RuntimeError::BudgetExhausted);
    }
    if bi == branches.len() {
        return match alternate {
            Some(alt) => eval_block_statements(&alt.body, env, scope, console, fuel - 1),
            None => Ok(Object::Null),
        };
    }
    proof {
        lemma_view_ifs_index(branches@, bi as int);
        let suffix = spec_view_ifs(branches@).subrange(bi as int, branches@.len() as int);
        assert(suffix[0] == spec_view_ifs(branches@)[bi as int]);
        assert(suffix.drop_first() =~= spec_view_ifs(branches@).subrange(
            bi as int + 1,
            branches@.len() as int,
        ));
    }
    let bc = match eval_expression(&branches[bi].condition, env, scope, console, fuel) {
        Ok(v) => v,
        Err(e) => {
            return Err(e);
        },
    };
    if is_truthy(&bc) {
        return eval_block_statements(&branches[bi].consequent.body, env, scope, console, fuel - 1);
    }
    eval_elif_branches(branches, bi + 1, alternate, env, scope, console, fuel)
}

/// Bind a function value under its name in the current scope; a name that
/// collides with a builtin is rejected with no effect.
pub fn eval_function_statement(
    name: &String,
    params: &Vec<Identifier>,
    body: &BlockStatement,
    env: &mut Environment,
    scope: usize,
) -> (r: Result<Object, RuntimeError>)
    requires
        scope < old(env)@.len(),
    ensures
        final(env)@.len() >= old(env)@.len(),
        ({
            let (m, env2) = spec_eval_fn_stmt(
                name@,
                spec_view_idents(params@),
                body@,
                old(env)@,
                scope as int,
            );
            eval_result_agrees(r, m) && final(env)@ == env2
        }),
{
    match builtin_lookup(name.as_str()) {
        Some(_) => Err(RuntimeError::RedeclareBuiltin(name.clone())),
        None => {
            let f = Object::Function(clone_idents(params), clone_block(body), scope);
            env.set(scope, name.clone(), f);
            Ok(Object::Null)
        },
    }
}

/// Evaluate one expression.
pub fn eval_expression(
    e: &Expression,
    env: &mut Environment,
    scope: usize,
    console: &mut Console,
    fuel: u64,
) -> (r: Result<Object, RuntimeError>)
    requires
        scope < old(env)@.len(),
    ensures
        final(env)@.len() >= old(env)@.len(),
        ({
            let (m, st2) = spec_eval_expr(
                e@,
                SpecEvalState { env: old(env)@, console: old(console)@ },
                scope as int,
                fuel as nat,
            );
            eval_result_agrees(r, m) && final(env)@ == st2.env && final(console)@ == st2.console
        }),
    decreases fuel, 5int, 0int,
{
    if fuel == 0 {
        return Err(RuntimeError::BudgetExhausted);
    }
    match e {
        Expression::Identifier(i) => eval_identifier(i.name.as_str(), env, scope),
        Expression::Literal(l) => eval_literal(l),
        Expression::Prefix(u) => {
            let v = match eval_expression(&u.operand, env, scope, console, fuel - 1) {
                Ok(v) => v,
                Err(er) => {
                    return Err(er);
                },
            };
            eval_prefix(&u.operator.kind, &v)
        },
        Expression::Infix(b) => {
            let a = match eval_expression(&b.left, env, scope, console, fuel - 1) {
                Ok(v) => v,
                Err(er) => {
                    return Err(er);
                },
            };
            let c = match eval_expression(&b.right, env, scope, console, fuel - 1) {
                Ok(v) => v,
                Err(er) => {
                    return Err(er);
                },
            };
            eval_infix(&b.operator.kind, &a, &c)
        },
        Expression::UnaryOperator(u) => eval_unary_operator(u, env, scope),
        Expression::FunctionCall(f) => eval_function_call(f, env, scope, console, fuel),
    }
}

/// Evaluate a call expression.
pub fn eval_function_call(
    f: &FunctionCall,
    env: &mut Environment,
    scope: usize,
    console: &mut Console,
    fuel: u64,
) -> (r: Result<Object, RuntimeError>)
    requires
        scope < old(env)@.len(),
    ensures
        final(env)@.len() >= old(env)@.len(),
        ({
            let (m, st2) = spec_eval_call(
                f.call@,
                spec_view_exprs(f.arguments@),
                SpecEvalState { env: old(env)@, console: old(console)@ },
                scope as int,
                fuel as nat,
            );
            eval_result_agrees(r, m) && final(env)@ == st2.env && final(console)@ == st2.console
        }),
    decreases fuel, 4int, 0int,
{
    let ident = match &*f.call {
        Expression::Identifier(i) => i,
        _ => {
            let shown = render_expr(&f.call);
            return Err(RuntimeError::CalleeNotIdentifier(shown));
        },
    };
    let vals = match eval_expressions(&f.arguments, env, scope, console, fuel) {
        Ok(v) => v,
        Err(e) => {
            return Err(e);
        },
    };
    match env.get(scope, ident.name.as_str()) {
        None => match builtin_lookup(ident.name.as_str()) {
            Some(k) => Ok(apply_builtin(k, &vals, console)),
            None => Err(RuntimeError::UnknownIdentifier(ident.name.clone())),
        },
        Some(callee_obj) => match callee_obj {
            Object::Function(params, body, cap) => {
                match validate_func_args_len(params.len(), vals.len()) {
                    Err(e) => {
                        proof {
                            lemma_view_idents_len(params@);
                            lemma_view_objects_len(vals@);
                        }
                        return Err(e);
                    },
                    Ok(_) => {},
                }
                proof {
                    lemma_view_idents_len(params@);
                    lemma_view_objects_len(vals@);
                }
                if fuel == 0 {
                    return Err(RuntimeError::BudgetExhausted);
                }
                let newscope = env.new_enclosed_environment(cap);
                let ghost env_pushed = env@;
                let ghost params_v = spec_view_idents(params@);
                let ghost vals_v = spec_view_objects(vals@);
                proof {
                    assert(params_v.subrange(0, params_v.len() as int) =~= params_v);
                    assert(vals_v.subrange(0, vals_v.len() as int) =~= vals_v);
                }
                let mut bi: usize = 0;
                while bi < params.len()
                    invariant
                        bi <= params@.len(),
                        params_v == spec_view_idents(params@),
                        vals_v == spec_view_objects(vals@),
                        params_v.len() == params@.len(),
                        vals_v.len() == vals@.len(),
                        params@.len() == vals@.len(),
                        newscope < env@.len(),
                        env@.len() == env_pushed.len(),
                        spec_bind_params(
                            env@,
                            newscope as int,
                            params_v.subrange(bi as int, params_v.len() as int),
                            vals_v.subrange(bi as int, vals_v.len() as int),
                        ) == spec_bind_params(env_pushed, newscope as int, params_v, vals_v),
                    decreases params@.len() - bi,
                {
                    proof {
                        lemma_view_idents_index(params@, bi as int);
                        lemma_view_objects_index(vals@, bi as int);
                        let ps = params_v.subrange(bi as int, params_v.len() as int);
                        let vs = vals_v.subrange(bi as int, vals_v.len() as int);
                        assert(ps[0] == params_v[bi as int]);
                        assert(vs[0] == vals_v[bi as int]);
                        assert(ps.drop_first() =~= params_v.subrange(
                            bi as int + 1,
                            params_v.len() as int,
                        ));
                        assert(vs.drop_first() =~= vals_v.subrange(
                            bi as int + 1,
                            vals_v.len() as int,
                        ));
                    }
                    env.set(newscope, params[bi].name.clone(), clone_object(&vals[bi]));
                    bi = bi + 1;
                }
                proof {
                    assert(params_v.subrange(params_v.len() as int, params_v.len() as int)
                        =~= Seq::<SpecIdent>::empty());
                }
                let result = match eval_block_statements(
                    &body.body,
                    env,
                    newscope,
                    console,
                    fuel - 1,
                ) {
                    Ok(v) => v,
                    Err(e) => {
                        return Err(e);
                    },
                };
                Ok(unwrap_return(result))
            },
            other => Err(RuntimeError::NotAFunction(object_to_string(&other))),
        },
    }
}

/// Evaluate an argument list left to right; the first error aborts the
/// rest.
pub fn eval_expressions(
    args: &Vec<Expression>,
    env: &mut Environment,
    scope: usize,
    console: &mut Console,
    fuel: u64,
) -> (r: Result<Vec<Object>, RuntimeError>)
    requires
        scope < old(env)@.len(),
    ensures
        final(env)@.len() >= old(env)@.len(),
        ({
            let (m, st2) = spec_eval_args(
                spec_view_exprs(args@),
                SpecEvalState { env: old(env)@, console: old(console)@ },
                scope as int,
                fuel as nat,
            );
            args_result_agrees(r, m) && final(env)@ == st2.env && final(console)@ == st2.console
        }),
    decreases fuel, 3int, args@.len() + 3,
{
    proof {
        lemma_view_exprs_len(args@);
        assert(spec_view_exprs(args@).subrange(0, args@.len() as int) =~= spec_view_exprs(args@));
    }
    eval_exprs_from(args, 0, env, scope, console, fuel)
}

/// Evaluate the arguments from position `i` on.
fn eval_exprs_from(
    args: &Vec<Expression>,
    i: usize,
    env: &mut Environment,
    scope: usize,
    console: &mut Console,
    fuel: u64,
) -> (r: Result<Vec<Object>, RuntimeError>)
    requires
        scope < old(env)@.len(),
        i <= args@.len(),
        spec_view_exprs(args@).len() == args@.len(),
    ensures
        final(env)@.len() >= old(env)@.len(),
        ({
            let (m, st2) = spec_eval_args(
                spec_view_exprs(args@).subrange(i as int, args@.len() as int),
                SpecEvalState { env: old(env)@, console: old(console)@ },
                scope as int,
                fuel as nat,
            );
            args_result_agrees(r, m) && final(env)@ == st2.env && final(console)@ == st2.console
        }),
    decreases fuel, 3int, args@.len() - i + 2,
{
    let ghost suffix = spec_view_exprs(args@).subrange(i as int, args@.len() as int);
    if i == args.len() {
        let out: Vec<Object> = Vec::new();
        proof {
            assert(spec_view_objects(out@) =~= Seq::<SpecObject>::empty());
        }
        return Ok(out);
    }
    if fuel == 0 {
        return Err(RuntimeError::BudgetExhausted);
    }
    proof {
        lemma_view_exprs_index(args@, i as int);
        assert(suffix[0] == spec_view_exprs(args@)[i as int]);
        assert(suffix.drop_first() =~= spec_view_exprs(args@).subrange(
            i as int + 1,
            args@.len() as int,
        ));
    }
    let v = match eval_expression(&args[i], env, scope, console, fuel - 1) {
        Ok(v) => v,
        Err(e) => {
            return Err(e);
        },
    };
    let rest = match eval_exprs_from(args, i + 1, env, scope, console, fuel) {
        Ok(v) => v,
        Err(e) => {
            return Err(e);
        },
    };
    let ghost restpre = rest@;
    let ghost vg = v;
    let mut out = rest;
    out.insert(0, v);
    proof {
        lemma_view_objects_insert0(restpre, vg);
    }
    Ok(out)
}

/// Emit each value's display form, with or without a trailing newline.
fn print_values(vals: &Vec<Object>, console: &mut Console, newline: bool)
    ensures
        final(console)@.inputs == old(console)@.inputs,
        final(console)@.output == old(console)@.output + spec_print_texts(
            spec_view_objects(vals@),
            newline,
        ),
{
    let ghost base = old(console)@.output;
    let mut i: usize = 0;
    proof {
        lemma_view_objects_len(vals@);
    }
    while i < vals.len()
        invariant
            i <= vals@.len(),
            spec_view_objects(vals@).len() == vals@.len(),
            console@.inputs == old(console)@.inputs,
            console@.output == base + spec_print_texts(
                spec_view_objects(vals@).subrange(0, i as int),
                newline,
            ),
        decreases vals@.len() - i,
    {
        let mut text = object_to_string(&vals[i]);
        if newline {
            text.append("\n");
        }
        let ghost pre = console.output@;
        let ghost textg = text@;
        console.output.push(text);
        proof {
            lemma_view_strings_push(pre, console.output@.last());
            lemma_view_objects_index(vals@, i as int);
            let vs = spec_view_objects(vals@);
            assert(vs.subrange(0, i as int + 1).drop_last() =~= vs.subrange(0, i as int));
            assert(vs.subrange(0, i as int + 1).last() == vs[i as int]);
            assert(console@.output =~= base + spec_print_texts(
                vs.subrange(0, i as int + 1),
                newline,
            ));
        }
        i = i + 1;
    }
    proof {
        assert(spec_view_objects(vals@).subrange(0, vals@.len() as int) =~= spec_view_objects(
            vals@,
        ));
    }
}

} // verus!

