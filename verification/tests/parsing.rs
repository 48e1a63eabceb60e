//! Parser-level tests: the grammar's accepted forms, the retained
//! mutability bits, numeric literals, the lexer, and the early token
//! stream parser.

use wellick::ast::{EmptyType, Expression, IntegerLiteral, LiteralError};
use wellick::binop;
use wellick::lexer::{Token, TokenKind, is_newline, is_whitespace, tokenize};
use wellick::parser::expressions::{dereference, expression, reference};
use wellick::parser::parse;
use wellick::parser::stmts::{assignment, function, reassign};
use wellick::ast::{AddressOf, Assignment, FnArg, IntegerType, Literal, Local, Name, Pointer};
use wellick::parser::helpers::arg_type;
use wellick::lexer::Cursor;

#[test]
fn test_deref() -> Result<(), String> {
    let derefs = ["*x"];
    for deref in derefs {
        match dereference(deref, 0) {
            Some((end, _)) => {
                assert_eq!(deref.len() - end, 0);
            }
            None => {
                return Err(format!("Failed to parse dereference {}", deref));
            }
        }
    }
    Ok(())
}

#[test]
fn test_ref() -> Result<(), String> {
    let refs = ["&x", "&mut x"];

    for ref_ in refs {
        match reference(ref_, 0) {
            Some((end, _)) => {
                assert_eq!(ref_.len() - end, 0);
            }
            None => {
                return Err(format!("Failed to parse ref {}", ref_));
            }
        }
    }
    Ok(())
}

#[test]
fn test_parse_reassign() {
    let code = "x = 10";
    reassign(code, 0).unwrap();
}

#[test]
fn test_parse_decl() -> Result<(), String> {
    let declarations = [
        "fn main() -> i32 {}",
        "fn main(x: i32) -> i32 {}",
        "fn main(x: i32, y: i32) -> i32 {}",
        "fn main(x: i32, y: i64) -> i32 {}",
        "fn main(x: i32, y: i32, z: i32) -> i32 {}",
        "fn main(x: *i32) -> i32 {}",
        "fn main(x: *mut i32) -> i32 {}",
    ];

    for declaration in declarations {
        match function(declaration, 0) {
            Ok(Some((end, _))) => {
                assert_eq!(declaration.len() - end, 0);
            }
            _ => {
                return Err(format!("Failed to parse declaration {}", declaration));
            }
        }
    }
    Ok(())
}

#[test]
fn test_parse_assignment() -> Result<(), String> {
    let assignments = [
        "let x: i32 = 10",
        "let mut x: i32 = 10",
        "let mut y: i32 = &x",
        "let mut y: *i32 = &x",
        "let mut y: *mut i32 = &x",
        "let mut y: *mut i32 = &mut x",
    ];

    for assign in assignments {
        match assignment(assign, 0) {
            Some((end, _)) => {
                assert_eq!(assign.len() - end, 0);
            }
            None => {
                return Err(format!("Failed to parse assignment {}", assign));
            }
        }
    }
    Ok(())
}

#[test]
fn test_mutable_ptr() {
    let (_, ast) = assignment("let mut y: *mut i32 = &x", 0).unwrap();
    assert!(ast.mutable);
    match ast.var_type {
        EmptyType::Pointer(ptr) => {
            assert!(ptr.mutable);
        }
        _ => {
            unreachable!("ptr assignment parsed as incorrect type");
        }
    };
}

#[test]
fn test_assignment_mutability_bits() {
    let (_, a) = assignment("let x: i32 = 10", 0).unwrap();
    assert!(!a.mutable);
    assert_eq!(a.target.ident, "x");
    let (_, b) = assignment("let mut x: i32 = 10", 0).unwrap();
    assert!(b.mutable);
    let (_, c) = assignment("let mut y: *mut i32 = &mut x", 0).unwrap();
    match c.value {
        Expression::AddressOf(ao) => {
            assert!(ao.mutable);
            assert_eq!(ao.name, "x");
        }
        _ => unreachable!("address-of expected"),
    }
}

#[test]
fn test_reference_mutability_bits() {
    let (_, plain) = reference("&x", 0).unwrap();
    assert!(!plain.mutable);
    assert_eq!(plain.name, "x");
    let (_, m) = reference("&mut x", 0).unwrap();
    assert!(m.mutable);
    assert_eq!(m.name, "x");
}

#[test]
fn test_deref_is_expression() {
    let (end, e) = expression("*p", 0).unwrap();
    assert_eq!(end, 2);
    match e {
        Expression::DeRef(name) => assert_eq!(name, "p"),
        _ => unreachable!("dereference parsed as another expression"),
    }
}

#[test]
fn test_underscored_literal_value() {
    let lit = IntegerLiteral::new("1_000_000");
    assert_eq!(lit.base10_parse().unwrap(), 1_000_000i64);
}

#[test]
fn test_literal_errors() {
    assert_eq!(
        IntegerLiteral::new("12a").base10_parse(),
        Err(LiteralError::Malformed)
    );
    assert_eq!(
        IntegerLiteral::new("").base10_parse(),
        Err(LiteralError::Malformed)
    );
    assert_eq!(
        IntegerLiteral::new("99999999999999999999").base10_parse(),
        Err(LiteralError::OutOfRange)
    );
    assert_eq!(IntegerLiteral::new("0").base10_parse(), Ok(0));
    assert_eq!(IntegerLiteral::new("9_2").base10_parse(), Ok(92));
}

#[test]
fn test_parse_program_whole() {
    let src = "fn add(x: i32, y: i32) -> i32 { return iadd(x, y); } fn main() -> i32 { return add(2, 3); }";
    let decls = parse(src).unwrap();
    assert_eq!(decls.len(), 2);
    assert_eq!(decls[0].name, "add");
    assert_eq!(decls[0].args.len(), 2);
    assert_eq!(decls[1].name, "main");
    assert_eq!(decls[1].body.len(), 1);
}

#[test]
fn test_parse_leftover_is_syntax_error() {
    let src = "fn main() -> i32 { return 0; } garbage";
    match parse(src) {
        Err(wellick::errors::ParseError::Syntax { rest }) => {
            assert!(rest.contains("garbage"));
        }
        _ => unreachable!("leftover input must stall the parser"),
    }
}

#[test]
fn test_parse_missing_return_type() {
    match parse("fn main() {}") {
        Err(wellick::errors::ParseError::MissingReturnType { func }) => {
            assert_eq!(func, "main");
        }
        _ => unreachable!("return types are mandatory"),
    }
}

#[test]
fn test_parse_pointer_return_rejected() {
    match parse("fn main() -> *i32 {}") {
        Err(wellick::errors::ParseError::PointerReturn) => {}
        _ => unreachable!("pointer returns are undefined behaviour"),
    }
}

#[test]
fn test_parse_if_statement() {
    let src = "fn main() -> i32 { if ieq(x, 1) { return 2; } return 3; }";
    let decls = parse(src).unwrap();
    assert_eq!(decls.len(), 1);
    assert_eq!(decls[0].body.len(), 2);
}

#[test]
fn test_tokenize_kinds() {
    let toks: Vec<Token> = tokenize("1 + 2;");
    let kinds: Vec<TokenKind> = toks.iter().map(|t| t.kind).collect();
    assert_eq!(
        kinds,
        vec![
            TokenKind::Number,
            TokenKind::Whitespace,
            TokenKind::Plus,
            TokenKind::Whitespace,
            TokenKind::Number,
            TokenKind::Semicolon,
        ]
    );
    assert_eq!(toks[0].line_no, 1);
    assert_eq!(toks[0].col_no, 1);
    assert_eq!(toks[2].col_no, 3);
}

#[test]
fn test_tokenize_newline_and_comment() {
    let toks: Vec<Token> = tokenize("({\n}#c\n1");
    let kinds: Vec<TokenKind> = toks.iter().map(|t| t.kind).collect();
    assert_eq!(
        kinds,
        vec![
            TokenKind::OpenParen,
            TokenKind::OpenBrace,
            TokenKind::Newline,
            TokenKind::CloseBrace,
            TokenKind::Whitespace,
            TokenKind::Newline,
            TokenKind::Number,
        ]
    );
    // The newline bumps the line counter for what follows it.
    assert_eq!(toks[3].line_no, 2);
}

#[test]
fn test_char_classes() {
    assert!(is_newline('\n'));
    assert!(is_newline('\r'));
    assert!(!is_newline(' '));
    assert!(is_whitespace(' '));
    assert!(is_whitespace('\t'));
    assert!(!is_whitespace('\n'));
}

#[test]
fn test_binop_statement() {
    let t = |kind| binop::Token {
        kind,
        line_no: 1,
        col_no: 1,
    };
    let tokens = vec![
        t(binop::TokenKind::Number(1)),
        t(binop::TokenKind::Whitespace),
        t(binop::TokenKind::Plus),
        t(binop::TokenKind::Whitespace),
        t(binop::TokenKind::Number(2)),
        t(binop::TokenKind::Semicolon),
    ];
    let b = binop::parse(tokens).unwrap();
    assert_eq!(b.value, binop::ExprKind::Add);
    assert_eq!(b.left.value, 1);
    assert_eq!(b.right.value, 2);
}

#[test]
fn test_binop_missing_semicolon() {
    let t = |kind| binop::Token {
        kind,
        line_no: 7,
        col_no: 1,
    };
    let tokens = vec![
        t(binop::TokenKind::Number(1)),
        t(binop::TokenKind::Minus),
        t(binop::TokenKind::Number(2)),
        t(binop::TokenKind::CloseParen),
    ];
    assert_eq!(
        binop::parse(tokens),
        Err(binop::StatementError::ExpectedSemicolon { line: 7 })
    );
}

#[test]
fn test_binop_unexpected_end() {
    let tokens = vec![binop::Token {
        kind: binop::TokenKind::Number(1),
        line_no: 1,
        col_no: 1,
    }];
    assert_eq!(
        binop::parse(tokens),
        Err(binop::StatementError::UnexpectedEnd)
    );
}

#[test]
fn test_float_literal_forms() {
    for src in ["let x: f32 = .5", "let x: f32 = 4.2e1", "let x: f64 = 42."] {
        assert!(assignment(src, 0).is_some(), "float form failed: {}", src);
    }
}

#[test]
fn test_hex_and_octal_lexemes() {
    let (_, a) = assignment("let x: i32 = 0x1F", 0).unwrap();
    match a.value {
        Expression::Literal(wellick::ast::Literal::Integer(lit)) => {
            assert_eq!(lit.token, "1F");
        }
        _ => unreachable!("hex literal expected"),
    }
    let (_, b) = assignment("let x: i32 = 0o17", 0).unwrap();
    match b.value {
        Expression::Literal(wellick::ast::Literal::Integer(lit)) => {
            assert_eq!(lit.token, "17");
        }
        _ => unreachable!("octal literal expected"),
    }
}

#[test]
fn test_ast_builders() {
    let n = Name {
        ident: "x".to_string(),
    };
    let lit = Expression::Literal(Literal::Integer(IntegerLiteral::new("1")));
    let a = Assignment::new(n, EmptyType::Integer(IntegerType::I32), lit, true);
    assert!(a.mutable);
    assert_eq!(a.target.ident, "x");
    let l = Local::new(
        Name {
            ident: "y".to_string(),
        },
        Expression::Identifier("z".to_string()),
    );
    assert_eq!(l.target.ident, "y");
    let arg = FnArg::new("p".to_string(), EmptyType::Integer(IntegerType::I64));
    assert_eq!(arg.name, "p");
    let ao = AddressOf::new("q".to_string(), true);
    assert!(ao.mutable);
    let ptr = Pointer::new(EmptyType::Integer(IntegerType::I32), false);
    assert!(!ptr.mutable);
}

#[test]
fn test_plain_type_parser() {
    let (p, ty) = arg_type("**i32", 0).unwrap();
    assert_eq!(p, 5);
    match ty {
        EmptyType::Pointer(outer) => {
            assert!(!outer.mutable);
            match outer.ty {
                EmptyType::Pointer(inner) => {
                    assert!(!inner.mutable);
                    assert!(matches!(inner.ty, EmptyType::Integer(_)));
                }
                _ => unreachable!("nested pointer expected"),
            }
        }
        _ => unreachable!("pointer expected"),
    }
}

#[test]
fn test_cursor_primitives() {
    let mut c = Cursor::new("ab");
    assert_eq!(c.position(), (1, 1));
    assert!(!c.is_eof());
    assert_eq!(c.first(), 'a');
    assert_eq!(c.bump(), Some('a'));
    assert_eq!(c.position(), (1, 2));
    c.advance_line();
    assert_eq!(c.position(), (2, 1));
    assert_eq!(c.bump(), Some('b'));
    assert!(c.is_eof());
    assert_eq!(c.first(), '\0');
    assert_eq!(c.bump(), None);
}

#[test]
fn test_parse_leading_whitespace() {
    let decls = parse("  \n fn main() -> i32 { return 0; }").unwrap();
    assert_eq!(decls.len(), 1);
    assert_eq!(decls[0].name, "main");
}

#[test]
fn test_parse_whitespace_only_is_syntax_error() {
    match parse("   ") {
        Err(wellick::errors::ParseError::Syntax { rest }) => {
            assert_eq!(rest, "   ");
        }
        _ => unreachable!("nothing but whitespace is not a program"),
    }
}

#[test]
fn test_parse_empty_input() {
    let decls = parse("").unwrap();
    assert_eq!(decls.len(), 0);
}
