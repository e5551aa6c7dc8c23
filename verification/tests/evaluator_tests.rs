use taha::ast::{BlockStatement, For, Node, Statement};
use taha::builtins::Console;
use taha::display::i64_to_string;
use taha::env::Environment;
use taha::evaluator::eval;
use taha::object::{object_to_string, Object, RuntimeError};
use taha::parser::Parser;

/// A generous step budget; far beyond what any test program nests.
const FUEL: u64 = 1_000_000;

/// Parse and evaluate each case against one shared environment and compare
/// the display form of the result (or the error's message) with the
/// expectation.
fn assert_eval(test_cases: &[(&str, &str)]) {
    let mut env = Environment::new();
    let mut console = Console::new(Vec::new());
    for (input, expected) in test_cases {
        match Parser::parse(input.to_string()) {
            Ok(node) => match eval(&node, &mut env, 0, &mut console, FUEL) {
                Ok(evaluated) => assert_eq!(object_to_string(&evaluated), *expected),
                Err(e) => assert_eq!(e.message(), *expected),
            },
            Err(errs) => panic!("parse error: {:?}", errs[0]),
        }
    }
}

/// Evaluate one source text in a fresh environment and return the result.
fn eval_one(input: &str) -> Result<Object, RuntimeError> {
    let mut env = Environment::new();
    let mut console = Console::new(Vec::new());
    let node = Parser::parse(input.to_string()).unwrap();
    eval(&node, &mut env, 0, &mut console, FUEL)
}

#[test]
fn test_integer_expressions() {
    assert_eval(&[
        ("1 + 1", "2"),
        ("(1 + 1) + 1", "3"),
        ("10 / 2 + 1", "6"),
        ("5 + (1 + 1) - 10", "-3"),
    ]);
}

#[test]
fn evaluator_test_test_function_declaration() {
    assert_eval(&[("fn foo_bar(a, b) { ret a + b; }", "null")]);
}

#[test]
fn test_arithmetic_precedence() {
    assert_eval(&[
        ("1 + 2 * 3", "7"),
        ("(1 + 2) * 3", "9"),
        ("10 / 2 + 1", "6"),
        ("5 + (1 + 1) - 10", "-3"),
    ]);
}

#[test]
fn test_variable_binding_and_lookup() {
    assert_eval(&[("# x = 10; x + 1", "11")]);
}

#[test]
fn test_closures() {
    assert_eval(&[("fn add(a, b) { ret a + b; } add(2, 3)", "5")]);
}

#[test]
fn test_closure_outlives_defining_call() {
    // The inner function still sees the outer call's variable after that
    // call has returned, because it captured the defining scope.
    assert_eval(&[(
        "fn make() { # v = 42; fn get() { ret v; } ret get; } # g = make(); g()",
        "42",
    )]);
}

#[test]
fn test_branch_selection() {
    assert_eval(&[("if (false) { 1 } else if (true) { 2 } else { 3 }", "2")]);
}

#[test]
fn test_unknown_identifier() {
    let err = eval_one("foo").unwrap_err();
    assert_eq!(err, RuntimeError::UnknownIdentifier("foo".to_string()));
    assert_eq!(err.message(), "unknown identifier foo");
}

#[test]
fn test_builtin_protection() {
    // Declaring `fn print` fails and leaves the real `print` usable.
    let mut env = Environment::new();
    let mut console = Console::new(Vec::new());
    let node = Parser::parse("fn print(a) { ret a; }".to_string()).unwrap();
    let err = eval(&node, &mut env, 0, &mut console, FUEL).unwrap_err();
    assert_eq!(err, RuntimeError::RedeclareBuiltin("print".to_string()));
    assert_eq!(
        err.message(),
        "redeclaring built-in function print is not allowed"
    );

    let call = Parser::parse("print(7)".to_string()).unwrap();
    let result = eval(&call, &mut env, 0, &mut console, FUEL).unwrap();
    assert_eq!(result, Object::Null);
    assert_eq!(console.output, vec!["7".to_string()]);
}

#[test]
fn test_division_by_zero() {
    let err = eval_one("1 / 0").unwrap_err();
    assert_eq!(err, RuntimeError::DivisionByZero);
    assert_eq!(err.message(), "division by zero");
}

#[test]
fn test_return_short_circuits_block() {
    // Statements after `ret` in the same block must not run: without the
    // short-circuit the second `ret` would win and the call would yield 2.
    assert_eval(&[("fn f() { ret 1; ret 2; } f()", "1")]);
}

#[test]
fn test_truthiness() {
    assert_eval(&[
        ("if (0) { 1 } else { 2 }", "1"),
        ("if (\"\") { 1 } else { 2 }", "1"),
        ("if (false) { 1 } else { 2 }", "2"),
        ("!0", "false"),
        ("!false", "true"),
        ("!\"\"", "false"),
    ]);
}

#[test]
fn test_prefix_operators() {
    assert_eval(&[("-5", "-5"), ("-(1 + 2)", "-3"), ("!true", "false")]);
}

#[test]
fn test_string_operations() {
    assert_eval(&[
        ("\"foo\" + \"bar\"", "foobar"),
        ("\"a\" == \"a\"", "true"),
        ("\"a\" != \"b\"", "true"),
        ("\"n = \" + 5", "n = 5"),
        ("5 + \" = n\"", "5 = n"),
        ("\"is \" + true", "is true"),
        ("false + \" it is\"", "false it is"),
    ]);
}

#[test]
fn test_comparisons() {
    assert_eval(&[
        ("1 < 2", "true"),
        ("2 <= 2", "true"),
        ("3 > 4", "false"),
        ("4 >= 5", "false"),
        ("1 == 1", "true"),
        ("1 != 1", "false"),
        ("true == false", "false"),
        ("true != false", "true"),
    ]);
}

#[test]
fn test_increment_and_decrement() {
    assert_eval(&[
        ("# i = 1; ++i", "2"),
        ("i", "2"),
        ("i++", "2"),
        ("i", "3"),
        ("--i", "2"),
        ("i--", "2"),
        ("i", "1"),
    ]);
}

#[test]
fn test_integer_overflow_is_a_typed_error() {
    let err = eval_one("9223372036854775807 + 1").unwrap_err();
    assert_eq!(err, RuntimeError::IntegerOverflow);
    let err = eval_one("-9223372036854775807 - 2").unwrap_err();
    assert_eq!(err, RuntimeError::IntegerOverflow);
}

#[test]
fn test_arity_mismatch() {
    let err = eval_one("fn f(a) { ret a; } f(1, 2)").unwrap_err();
    assert_eq!(err, RuntimeError::ArityMismatch { want: 1, got: 2 });
    assert_eq!(err.message(), "wrong number of arguments! wanted 1 got 2");
}

#[test]
fn test_calling_a_non_function() {
    // The error shows the bound value's display form, not the name.
    let err = eval_one("# x = 1; x()").unwrap_err();
    assert_eq!(err, RuntimeError::NotAFunction("1".to_string()));
    assert_eq!(err.message(), "expected 1 to be a function");
}

#[test]
fn test_calling_a_non_identifier() {
    let err = eval_one("5(1)").unwrap_err();
    assert_eq!(err, RuntimeError::CalleeNotIdentifier("5".to_string()));
    assert_eq!(
        err.message(),
        "expected to get function declaratin from the object store but got 5"
    );
}

#[test]
fn test_user_binding_shadows_builtin_at_call_position() {
    // After `# print = 5`, the name resolves in the environment chain, so
    // the call must fail rather than invoke the builtin; nothing is
    // printed.
    let mut env = Environment::new();
    let mut console = Console::new(Vec::new());
    let decl = Parser::parse("# print = 5;".to_string()).unwrap();
    eval(&decl, &mut env, 0, &mut console, FUEL).unwrap();
    let call = Parser::parse("print(1)".to_string()).unwrap();
    let err = eval(&call, &mut env, 0, &mut console, FUEL).unwrap_err();
    assert_eq!(err, RuntimeError::NotAFunction("5".to_string()));
    assert!(console.output.is_empty());
}

#[test]
fn test_invalid_operand_pairings() {
    assert!(matches!(
        eval_one("1 + true").unwrap_err(),
        RuntimeError::InvalidInfixOperands(_)
    ));
    assert!(matches!(
        eval_one("true + false").unwrap_err(),
        RuntimeError::InvalidBooleanOperator(_)
    ));
    assert!(matches!(
        eval_one("\"a\" - \"b\"").unwrap_err(),
        RuntimeError::InvalidStringOperator(_)
    ));
    let err = eval_one("-true").unwrap_err();
    assert_eq!(err, RuntimeError::MinusOperandNotInteger("true".to_string()));
    assert_eq!(err.message(), "can't apply prefix minus operator: true");
}

#[test]
fn test_increment_errors() {
    assert!(matches!(
        eval_one("++zz").unwrap_err(),
        RuntimeError::UnaryTargetUnbound(_)
    ));
    let err = eval_one("# s = \"x\"; ++s").unwrap_err();
    assert_eq!(err, RuntimeError::UnaryTargetNotInteger("x".to_string()));
    assert_eq!(
        err.message(),
        "unary operation can only performed for number objects but got x"
    );
}

#[test]
fn test_println_collects_output() {
    let mut env = Environment::new();
    let mut console = Console::new(Vec::new());
    let node = Parser::parse("println(1 + 1, \"hi\")".to_string()).unwrap();
    let result = eval(&node, &mut env, 0, &mut console, FUEL).unwrap();
    assert_eq!(result, Object::Null);
    assert_eq!(console.output, vec!["2\n".to_string(), "hi\n".to_string()]);
}

#[test]
fn test_input_takes_queued_lines() {
    let mut env = Environment::new();
    let mut console = Console::new(vec!["first".to_string(), "second".to_string()]);
    let node = Parser::parse("input() + \"/\" + input() + \"/\" + input()".to_string()).unwrap();
    let result = eval(&node, &mut env, 0, &mut console, FUEL).unwrap();
    assert_eq!(object_to_string(&result), "first/second/");
}

#[test]
fn test_empty_program_yields_null() {
    assert_eq!(eval_one("").unwrap(), Object::Null);
}

#[test]
fn test_number_rendering() {
    assert_eq!(i64_to_string(0), "0");
    assert_eq!(i64_to_string(907), "907");
    assert_eq!(i64_to_string(-42), "-42");
    assert_eq!(i64_to_string(i64::MAX), "9223372036854775807");
    assert_eq!(i64_to_string(i64::MIN), "-9223372036854775808");
}

#[test]
fn test_for_statement_is_reserved() {
    // The `For` shape is reserved in the AST; evaluating one is a typed
    // error, never a crash.
    let stmt = Statement::For(For {
        initializer: None,
        condition: None,
        increment: None,
        body: Box::new(BlockStatement {
            body: Vec::new(),
            span: taha::token::Span { start: 0, end: 0 },
        }),
        span: taha::token::Span { start: 0, end: 0 },
    });
    let mut env = Environment::new();
    let mut console = Console::new(Vec::new());
    let err = eval(&Node::Statement(stmt), &mut env, 0, &mut console, FUEL).unwrap_err();
    assert_eq!(err, RuntimeError::ForUnsupported);
    assert_eq!(err.message(), "for statements are reserved and not evaluated");
}

#[test]
fn test_user_binding_shadows_builtin_for_lookup() {
    // A variable may shadow a builtin name for plain lookup.
    assert_eval(&[("# input = 3; input + 1", "4")]);
}
