use shardc::ast::{BinOp, Expr, Literal, Stmt};
use shardc::instr::Instr;
use shardc::parse_error::ParseError;
use shardc::parser::{parse_decimal, Parser};
use shardc::precedence::Precedence;
use shardc::token::Token;
use shardc::token_buffer::TokenBuffer;
use shardc::token_kind::TokenKind;
use shardc::translate::{Context, AST};

fn tok(kind: TokenKind, text: &str) -> Token {
    Token::new(kind, 0..text.len(), text.to_string())
}

/// Splits a source made of single-character symbols, digits, letters and
/// spaces into tokens.
fn tokens(src: &str) -> Vec<Token> {
    let chars: Vec<char> = src.chars().collect();
    let mut out = Vec::new();
    let mut i = 0;
    while i < chars.len() {
        let c = chars[i];
        let start = i;
        let kind = if c.is_ascii_digit() {
            while i + 1 < chars.len() && chars[i + 1].is_ascii_digit() {
                i += 1;
            }
            TokenKind::Int
        } else if c.is_ascii_alphabetic() {
            while i + 1 < chars.len() && chars[i + 1].is_ascii_alphabetic() {
                i += 1;
            }
            let word: String = chars[start..=i].iter().collect();
            if word == "let" { TokenKind::Let } else { TokenKind::Ident }
        } else {
            match c {
                ' ' => TokenKind::Whitespace,
                '\n' => TokenKind::Newline,
                '+' => TokenKind::Plus,
                '-' => TokenKind::Minus,
                '*' => TokenKind::Star,
                '/' => TokenKind::Slash,
                '(' => TokenKind::LeftParen,
                ')' => TokenKind::RightParen,
                '{' => TokenKind::LeftBrace,
                '}' => TokenKind::RightBrace,
                ';' => TokenKind::Semicolon,
                ':' => TokenKind::Colon,
                ',' => TokenKind::Comma,
                '=' => TokenKind::Eq,
                '>' => TokenKind::Gt,
                _ => TokenKind::Error,
            }
        };
        let text: String = chars[start..=i].iter().collect();
        out.push(Token::new(kind, start..i + 1, text));
        i += 1;
    }
    out
}

fn parser(src: &str) -> Parser {
    Parser::new(tokens(src), src.len())
}

fn int_value(e: &Expr) -> u64 {
    match e {
        Expr::Literal(Literal::Int(v)) => *v,
        other => panic!("not an integer literal: {:?}", other),
    }
}

#[test]
fn precedence_of_operators() {
    assert_eq!(Precedence::from(&TokenKind::Plus), Precedence::Add);
    assert_eq!(Precedence::from(&TokenKind::Minus), Precedence::Add);
    assert_eq!(Precedence::from(&TokenKind::Star), Precedence::Times);
    assert_eq!(Precedence::from(&TokenKind::Slash), Precedence::Times);
    assert_eq!(Precedence::from(&TokenKind::Ident), Precedence::Lowest);
    assert!(Precedence::Times.binds_tighter(&Precedence::Add));
    assert!(!Precedence::Add.binds_tighter(&Precedence::Add));
}

#[test]
fn token_accessors() {
    let t = tok(TokenKind::Ident, "abc");
    assert_eq!(t.kind(), TokenKind::Ident);
    assert_eq!(t.source_str(), "abc");
    let e = Token::eof(7);
    assert_eq!(e.kind(), TokenKind::Eof);
    assert_eq!(e.source_str(), "");
}

#[test]
fn token_buffer_reads_end_past_last() {
    let mut b = TokenBuffer::new(vec![tok(TokenKind::Let, "let"), tok(TokenKind::Ident, "x")], 5);
    assert_eq!(b.get_token_kind(0), TokenKind::Let);
    assert_eq!(b.get_token_kind(1), TokenKind::Ident);
    assert_eq!(b.get_token_kind(2), TokenKind::Eof);
    assert_eq!(b.assert_token(0, TokenKind::Ident).map(|t| t.kind()), Err(ParseError));
    let snap = b.save_snap();
    assert_eq!(b.assert_token(0, TokenKind::Let).unwrap().source_str(), "let");
    assert_eq!(b.get_token(0).source_str(), "x");
    b.bump();
    b.bump();
    assert_eq!(b.get_token_kind(0), TokenKind::Eof);
    b.return_snap(snap);
    assert_eq!(b.get_token_kind(0), TokenKind::Let);
}

#[test]
fn decimal_literals() {
    assert_eq!(parse_decimal(&"0".to_string()), Some(0));
    assert_eq!(parse_decimal(&"1234".to_string()), Some(1234));
    assert_eq!(parse_decimal(&"18446744073709551615".to_string()), Some(u64::MAX));
    assert_eq!(parse_decimal(&"18446744073709551616".to_string()), None);
    assert_eq!(parse_decimal(&"".to_string()), None);
    assert_eq!(parse_decimal(&"12a".to_string()), None);
}

#[test]
fn parses_sum_with_product_binding_tighter() {
    let mut p = parser("1 + 2 * 3");
    let e = p.parse_expr(Precedence::Lowest).unwrap();
    match e {
        Expr::BinOp(BinOp::Add, l, r) => {
            assert_eq!(int_value(&l), 1);
            match *r {
                Expr::BinOp(BinOp::Times, a, b) => {
                    assert_eq!(int_value(&a), 2);
                    assert_eq!(int_value(&b), 3);
                }
                other => panic!("unexpected {:?}", other),
            }
        }
        other => panic!("unexpected {:?}", other),
    }
}

#[test]
fn parses_grouped_expression() {
    let mut p = parser("(1 - 2) / 4");
    let e = p.parse_expr(Precedence::Lowest).unwrap();
    match e {
        Expr::BinOp(BinOp::Divide, l, r) => {
            assert!(matches!(*l, Expr::BinOp(BinOp::Minus, _, _)));
            assert_eq!(int_value(&r), 4);
        }
        other => panic!("unexpected {:?}", other),
    }
}

#[test]
fn parses_function_literal() {
    let mut p = parser("(a: int, b: int) => a");
    // the body is not an expression the grammar knows, so the whole fails
    assert!(p.parse_expr(Precedence::Lowest).is_err());
    let mut p = parser("(a: int, b: int) => 5");
    match p.parse_expr(Precedence::Lowest).unwrap() {
        Expr::Fn(args, body) => {
            assert_eq!(args.len(), 2);
            assert_eq!(args[0].name, "a");
            assert_eq!(args[1].typename, "int");
            assert_eq!(int_value(&body), 5);
        }
        other => panic!("unexpected {:?}", other),
    }
}

#[test]
fn parses_block_with_declaration() {
    let mut p = parser("{ let x = 1; 2 }");
    let program = p.parse_program().unwrap();
    match program.stmt {
        Stmt::Expr(Expr::Block(stmts)) => {
            assert_eq!(stmts.len(), 2);
            match &stmts[0] {
                Stmt::Decl(name, e) => {
                    assert_eq!(name, "x");
                    assert_eq!(int_value(e), 1);
                }
                other => panic!("unexpected {:?}", other),
            }
            assert!(matches!(&stmts[1], Stmt::Expr(Expr::Literal(Literal::Int(2)))));
        }
        other => panic!("unexpected {:?}", other),
    }
}

#[test]
fn rejects_unknown_start_of_expression() {
    let mut p = parser("+ 1");
    assert_eq!(p.parse_expr(Precedence::Lowest).map(|_| ()), Err(ParseError));
    let mut p = parser("99999999999999999999");
    assert!(p.parse_program().is_err());
    assert_eq!(ParseError.message(), "Parsing Error.");
}

#[test]
fn translates_to_stack_order() {
    let mut p = parser("2 + 3 * 4 - 1");
    let e = p.parse_expr(Precedence::Lowest).unwrap();
    let (_, code) = AST::expr_to_wasm(&Context {}, &e);
    let ops: Vec<String> = code.instrs.iter().map(|i| format!("{:?}", i)).collect();
    let expected: Vec<String> = [
        Instr::I64Const(2),
        Instr::I64Const(3),
        Instr::I64Const(4),
        Instr::I64Mul,
        Instr::I64Add,
        Instr::I64Const(1),
        Instr::I64Sub,
    ]
    .iter()
    .map(|i| format!("{:?}", i))
    .collect();
    assert_eq!(ops, expected);
}

#[test]
fn translates_blocks_and_literals() {
    let block = Expr::Block(vec![
        Stmt::Decl("x".to_string(), Expr::Literal(Literal::Int(9))),
        Stmt::Expr(Expr::Literal(Literal::Bool(true))),
        Stmt::Expr(Expr::BinOp(
            BinOp::Divide,
            Box::new(Expr::Literal(Literal::Int(8))),
            Box::new(Expr::Literal(Literal::Float(2.0f64.to_bits()))),
        )),
    ]);
    let (_, code) = AST::expr_to_wasm(&Context {}, &block);
    let ops: Vec<String> = code.instrs.iter().map(|i| format!("{:?}", i)).collect();
    let expected: Vec<String> = [
        Instr::I64Const(1),
        Instr::I64Const(8),
        Instr::F64Const(2.0f64.to_bits()),
        Instr::I64DivU,
    ]
    .iter()
    .map(|i| format!("{:?}", i))
    .collect();
    assert_eq!(ops, expected);
}

#[test]
fn token_buffer_cursor_moves_past_end() {
    let mut b = TokenBuffer::new(Vec::new(), 0);
    assert_eq!(b.assert_token(0, TokenKind::Eof).unwrap().kind(), TokenKind::Eof);
    assert_eq!(b.save_snap(), 1);
    b.bump();
    assert_eq!(b.save_snap(), 2);
    assert_eq!(b.get_token_kind(0), TokenKind::Eof);
    b.return_snap(7);
    assert_eq!(b.save_snap(), 7);
    assert_eq!(b.get_token_kind(0), TokenKind::Eof);
    b.return_snap(0);
    assert_eq!(b.save_snap(), 0);
}

#[test]
fn subtraction_associates_to_the_left() {
    let mut p = parser("1-2-3");
    match p.parse_expr(Precedence::Lowest).unwrap() {
        Expr::BinOp(BinOp::Minus, l, r) => {
            assert_eq!(int_value(&r), 3);
            match *l {
                Expr::BinOp(BinOp::Minus, a, b) => {
                    assert_eq!(int_value(&a), 1);
                    assert_eq!(int_value(&b), 2);
                }
                other => panic!("unexpected {:?}", other),
            }
        }
        other => panic!("unexpected {:?}", other),
    }
}

#[test]
fn empty_input_is_an_error() {
    let mut p = parser("");
    assert_eq!(p.parse_expr(Precedence::Lowest).map(|_| ()), Err(ParseError));
    let mut p = parser("   ");
    assert_eq!(p.parse_expr(Precedence::Lowest).map(|_| ()), Err(ParseError));
}

#[test]
fn single_literal_parses_to_itself() {
    let mut p = parser(" 42 ");
    assert!(matches!(p.parse_expr(Precedence::Lowest), Ok(Expr::Literal(Literal::Int(42)))));
}
