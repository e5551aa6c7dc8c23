use taha::ast::{Expression, Node, Statement, UnaryOperatorType};
use taha::display::render_expr;
use taha::lexer::{LexError, Lexer};
use taha::parser::{ParseError, Parser};
use taha::precedences::Precedence;
use taha::token::{Span, TokenKind};

/// A generous nesting budget for driving parser pieces directly.
const FUEL: u64 = 1_000_000;

fn assert_parse(input: &str) {
    match Parser::parse(input.to_string()) {
        Ok(program) => {
            println!("{:#?}", program);
        }
        Err(parse_errors) => {
            println!("{:#?}", parse_errors);
        }
    }
}

#[test]
fn test_parser_simple_expression() {
    assert_parse("1 == 11");
    assert_parse("1 != 1");
    assert_parse("1 < 1");
    assert_parse("1 > 1");
    assert_parse("100 <= 100");
    assert_parse("100 >= 100");
    assert_parse("1 + 2");
    assert_parse("1 - 2");
    assert_parse("1 * 2");
    assert_parse("1 / 2");
    assert_parse("1 + 2 / 2");
    assert_parse("1 + 2 / 2 - 10");
}

#[test]
fn test_parse_bool_expressions() {
    assert_parse("true");
    assert_parse("false");
    assert_parse("true == true");
    assert_parse("false == false");
    assert_parse("true == false");
    assert_parse("false == true");
}

#[test]
fn parser_test_test_variable_declaration() {
    assert_parse("#my_var = 1 + 2 * 3;");
}

#[test]
fn test_if_statement() {
    assert_parse(
        "
        if (1 < 2)
        {
            print(1);
        }
        else if (2 == 2) {
            print(2);
        }
        else {
            print(3);
        }
        ",
    );
}

#[test]
fn test_if_statement2() {
    assert_parse(
        "
        if (next() == 0) {
            print(10 / 2 * 3 + 1);
        }
        ",
    );
}

#[test]
fn test_parse_block_statement() {
    let input = "{ 1 + 2; hello(); }";
    let mut binding = Lexer::new(input.to_string());
    let mut parser = Parser::new(&mut binding);
    let block = parser.parse_block_statement(FUEL).unwrap();
    println!("{:#?}", block);
}

#[test]
fn test_return_statement() {
    assert_parse("ret 1 + 2");
}

#[test]
fn test_parse_function_params() {
    let mut lexer = Lexer::new("(a, b, c)".to_string());
    let mut parser = Parser::new(&mut lexer);
    let params = parser.parse_function_params(FUEL);

    println!("{:#?}", params);
}

#[test]
fn test_parse_expression_series() {
    let mut lexer = Lexer::new("[1, 2, 3, ]".to_string());
    let mut parser = Parser::new(&mut lexer);
    let params = parser
        .parse_expression_series(TokenKind::RightBracket, FUEL)
        .unwrap();

    println!("{:#?}", params.0);
}

#[test]
fn test_function_statement() {
    assert_parse("fn foo_bar(a, b) { ret a + b; }");
}

#[test]
fn test_function_call_expresion() {
    assert_parse("foo_bar(1, 2);");
}

#[test]
fn test_compare_precedences() {
    assert!(Precedence::Lowest < Precedence::LessGreater);
    assert!(Precedence::Call > Precedence::Sum);
}

#[test]
fn test_parsing_is_deterministic() {
    let source = "fn add(a, b) { ret a + b; } # x = add(1, 2 * 3); if (x > 5) { x } else { 0 }";
    let first = Parser::parse(source.to_string());
    let second = Parser::parse(source.to_string());
    assert_eq!(first, second);
}

#[test]
fn test_precedence_shapes_the_tree() {

    let render = |source: &str| -> String {
        match Parser::parse(source.to_string()).unwrap() {
            Node::Program(p) => match &p.body[0] {
                Statement::Expression(e) => render_expr(e),
                other => panic!("expected an expression statement, got {:?}", other),
            },
            other => panic!("expected a program, got {:?}", other),
        }
    };
    assert_eq!(render("1 + 2 * 3"), "(1 + (2 * 3))");
    assert_eq!(render("(1 + 2) * 3"), "((1 + 2) * 3)");
    assert_eq!(render("1 + 2 / 2 - 10"), "((1 + (2 / 2)) - 10)");
    assert_eq!(render("-1 + 2"), "((-1) + 2)");
    assert_eq!(render("!true"), "(!true)");
    assert_eq!(render("foo(1, 2 + 3)"), "foo(1, (2 + 3))");
}

#[test]
fn test_parse_errors_accumulate_per_statement() {
    // Two independent statement-level mistakes are both reported.
    let errs = Parser::parse("# x 5 # y 6".to_string()).unwrap_err();
    assert_eq!(errs.len(), 2);
}

#[test]
fn test_empty_source_parses_to_empty_program() {
    match Parser::parse(String::new()).unwrap() {
        Node::Program(p) => assert_eq!(p.body.len(), 0),
        other => panic!("expected a program, got {:?}", other),
    }
}

#[test]
fn test_unterminated_string_surfaces_as_parse_error() {
    let errs = Parser::parse("\"abc".to_string()).unwrap_err();
    assert_eq!(errs.len(), 1);
    assert!(matches!(errs[0], ParseError::Lex(LexError::UnterminatedString)));
}

#[test]
fn test_parse_error_messages() {
    let errs = Parser::parse("1 +".to_string()).unwrap_err();
    assert_eq!(
        errs[0].message(),
        "no prefix function found for the token: EOF"
    );
    let errs = Parser::parse("# x 5".to_string()).unwrap_err();
    assert_eq!(errs[0].message(), "expected token: = but got 5");
    let errs = Parser::parse("\"abc".to_string()).unwrap_err();
    assert_eq!(
        errs[0].message(),
        "expected closing string with double quotation but got nothing"
    );
}

#[test]
fn test_node_spans_cover_consumed_tokens() {
    let first_stmt = |source: &str| -> Statement {
        match Parser::parse(source.to_string()).unwrap() {
            Node::Program(mut p) => p.body.remove(0),
            other => panic!("expected a program, got {:?}", other),
        }
    };

    // A consumed trailing semicolon is inside the declaration's span.
    match first_stmt("# x = 2 ;") {
        Statement::VariableDeclaration(v) => assert_eq!(v.span, Span { start: 0, end: 8 }),
        other => panic!("expected a declaration, got {:?}", other),
    }
    match first_stmt("# x = 2") {
        Statement::VariableDeclaration(v) => assert_eq!(v.span, Span { start: 0, end: 6 }),
        other => panic!("expected a declaration, got {:?}", other),
    }
    // Increment forms cover the operator token and the identifier.
    match first_stmt("i++") {
        Statement::Expression(Expression::UnaryOperator(u)) => {
            assert_eq!(u.span, Span { start: 0, end: 2 });
            assert_eq!(u.identifier.span, Span { start: 0, end: 0 });
        }
        other => panic!("expected a unary operator node, got {:?}", other),
    }
    match first_stmt("++i") {
        Statement::Expression(Expression::UnaryOperator(u)) => {
            assert_eq!(u.span, Span { start: 0, end: 2 });
            assert_eq!(u.identifier.span, Span { start: 2, end: 2 });
        }
        other => panic!("expected a unary operator node, got {:?}", other),
    }
    // A parenthesized expression's node covers the parentheses.
    match first_stmt("(1 + 2)") {
        Statement::Expression(Expression::Infix(b)) => {
            assert_eq!(b.span, Span { start: 0, end: 6 });
        }
        other => panic!("expected an infix node, got {:?}", other),
    }
    // The program node covers its statements.
    match Parser::parse("1 + 2".to_string()).unwrap() {
        Node::Program(p) => assert_eq!(p.span, Span { start: 0, end: 4 }),
        other => panic!("expected a program, got {:?}", other),
    }
    match Parser::parse(String::new()).unwrap() {
        Node::Program(p) => assert_eq!(p.span, Span { start: 0, end: 0 }),
        other => panic!("expected a program, got {:?}", other),
    }
}

#[test]
fn test_postfix_and_prefix_steps_parse() {

    let first_expr = |source: &str| -> Expression {
        match Parser::parse(source.to_string()).unwrap() {
            Node::Program(mut p) => match p.body.remove(0) {
                Statement::Expression(e) => e,
                other => panic!("expected an expression statement, got {:?}", other),
            },
            other => panic!("expected a program, got {:?}", other),
        }
    };
    match first_expr("i++") {
        Expression::UnaryOperator(u) => {
            assert_eq!(u.identifier.name, "i");
            assert_eq!(u.ty, UnaryOperatorType::PostIncrement);
        }
        other => panic!("expected a unary operator node, got {:?}", other),
    }
    match first_expr("--j") {
        Expression::UnaryOperator(u) => {
            assert_eq!(u.identifier.name, "j");
            assert_eq!(u.ty, UnaryOperatorType::PreDecrement);
        }
        other => panic!("expected a unary operator node, got {:?}", other),
    }
}
