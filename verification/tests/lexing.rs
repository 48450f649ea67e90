//! Tests of the lexer alone: token classification, maximal munch, the
//! escape rules, the fatal cases, and the end-of-input invariant.

use butter::ast::LexError;
use butter::lexer::lex;
use butter::lexer::Lexer;
use butter::token::TokenKind;

#[test]
fn keywords_are_classified() {
    let got = lex("let mut fn if else struct for while return out skip true false const import nil").unwrap();
    let expected = vec![
        TokenKind::KwLet,
        TokenKind::KwMut,
        TokenKind::KwFn,
        TokenKind::KwIf,
        TokenKind::KwElse,
        TokenKind::KwStruct,
        TokenKind::KwFor,
        TokenKind::KwWhile,
        TokenKind::KwReturn,
        TokenKind::KwOut,
        TokenKind::KwSkip,
        TokenKind::KwTrue,
        TokenKind::KwFalse,
        TokenKind::KwConst,
        TokenKind::KwImport,
        TokenKind::KwNil,
        TokenKind::Eof,
    ];
    assert_eq!(got, expected);
}

#[test]
fn near_keywords_stay_identifiers() {
    let got = lex("lets _if If whileX").unwrap();
    let expected = vec![
        TokenKind::Ident(String::from("lets")),
        TokenKind::Ident(String::from("_if")),
        TokenKind::Ident(String::from("If")),
        TokenKind::Ident(String::from("whileX")),
        TokenKind::Eof,
    ];
    assert_eq!(got, expected);
}

#[test]
fn two_character_operators_win_over_prefixes() {
    let got = lex("== != <= >= && || += -= *= /= => = < > ! + - * / %").unwrap();
    let expected = vec![
        TokenKind::EqEq,
        TokenKind::BangEq,
        TokenKind::LessEq,
        TokenKind::GreaterEq,
        TokenKind::AndAnd,
        TokenKind::OrOr,
        TokenKind::PlusEqual,
        TokenKind::MinusEqual,
        TokenKind::StarEqual,
        TokenKind::SlashEqual,
        TokenKind::FatArrow,
        TokenKind::Equal,
        TokenKind::Less,
        TokenKind::Greater,
        TokenKind::Bang,
        TokenKind::Plus,
        TokenKind::Minus,
        TokenKind::Star,
        TokenKind::Slash,
        TokenKind::Percent,
        TokenKind::Eof,
    ];
    assert_eq!(got, expected);
}

#[test]
fn punctuation_tokens() {
    let got = lex(". ( ) { } [ ] , ; :").unwrap();
    let expected = vec![
        TokenKind::Dot,
        TokenKind::LParen,
        TokenKind::RParen,
        TokenKind::LBrace,
        TokenKind::RBrace,
        TokenKind::LBracket,
        TokenKind::RBracket,
        TokenKind::Comma,
        TokenKind::Semicolon,
        TokenKind::Colon,
        TokenKind::Eof,
    ];
    assert_eq!(got, expected);
}

#[test]
fn integer_and_float_literals() {
    let got = lex("42 1.50 007 1.x").unwrap();
    let expected = vec![
        TokenKind::IntLiteral(42),
        TokenKind::FloatLiteral(String::from("1.50")),
        TokenKind::IntLiteral(7),
        TokenKind::IntLiteral(1),
        TokenKind::Dot,
        TokenKind::Ident(String::from("x")),
        TokenKind::Eof,
    ];
    assert_eq!(got, expected);
}

#[test]
fn largest_integer_fits_and_overflow_is_fatal() {
    let got = lex("9223372036854775807").unwrap();
    assert_eq!(got, vec![TokenKind::IntLiteral(i64::MAX), TokenKind::Eof]);
    assert_eq!(lex("99999999999999999999"), Err(LexError::IntOutOfRange));
}

#[test]
fn line_comments_produce_no_token() {
    let got = lex("1 // all of this vanishes\n 2 // and this too").unwrap();
    assert_eq!(
        got,
        vec![TokenKind::IntLiteral(1), TokenKind::IntLiteral(2), TokenKind::Eof]
    );
}

#[test]
fn string_escapes_are_decoded() {
    let got = lex("\"a\\n\\t\\r\\\\\\\"\\0b\"").unwrap();
    assert_eq!(
        got,
        vec![
            TokenKind::StringLiteral(String::from("a\n\t\r\\\"\0b")),
            TokenKind::Eof,
        ]
    );
}

#[test]
fn either_quote_closes_a_string() {
    let got = lex("\"abc' 'def\"").unwrap();
    assert_eq!(
        got,
        vec![
            TokenKind::StringLiteral(String::from("abc")),
            TokenKind::StringLiteral(String::from("def")),
            TokenKind::Eof,
        ]
    );
}

#[test]
fn unterminated_string_is_fatal() {
    assert_eq!(lex("'unterminated"), Err(LexError::UnterminatedString));
}

#[test]
fn unknown_escape_is_fatal() {
    assert_eq!(lex("\"ab\\qcd\""), Err(LexError::InvalidEscape('q')));
}

#[test]
fn escape_at_end_of_input_is_fatal() {
    assert_eq!(lex("\"ab\\"), Err(LexError::UnterminatedEscape));
}

#[test]
fn lone_ampersand_and_pipe_are_fatal() {
    assert_eq!(lex("a & b"), Err(LexError::LoneOperator('&')));
    assert_eq!(lex("a | b"), Err(LexError::LoneOperator('|')));
}

#[test]
fn unexpected_character_is_fatal() {
    assert_eq!(lex("#"), Err(LexError::UnexpectedChar('#')));
}

#[test]
fn token_stream_ends_with_exactly_one_eof() {
    for src in ["", "   ", "// only a comment", "let x : Int = 1;", "a.b(1)[2].c;"] {
        let toks = lex(src).unwrap();
        assert!(toks.len() >= 1);
        assert_eq!(toks[toks.len() - 1], TokenKind::Eof);
        let eofs = toks.iter().filter(|t| matches!(t, TokenKind::Eof)).count();
        assert_eq!(eofs, 1);
    }
}

#[test]
fn lexer_cursor_methods() {
    let mut lx = Lexer::new("ab");
    assert!(!lx.is_eof());
    assert_eq!(lx.curr(), Some('a'));
    assert_eq!(lx.next(), Some('b'));
    assert_eq!(lx.bump(), Some('a'));
    assert_eq!(lx.bump(), Some('b'));
    assert_eq!(lx.bump(), None);
    assert!(lx.is_eof());
    assert_eq!(lx.curr(), None);
}

#[test]
fn whitespace_skipping_and_next_token() {
    let mut lx = Lexer::new("  \t\n let");
    lx.skip_whitespace();
    assert!(!lx.is_eof());
    assert_eq!(lx.next_token(), Ok(TokenKind::KwLet));
    assert_eq!(lx.next_token(), Ok(TokenKind::Eof));
}

#[test]
fn skip_line_comment_consumes_through_newline() {
    let mut lx = Lexer::new("xy\nz");
    lx.skip_line_comment();
    assert_eq!(lx.curr(), Some('z'));
}

#[test]
fn identifiers_may_hold_digits_after_the_first_character() {
    let got = lex("a1_b2").unwrap();
    assert_eq!(
        got,
        vec![TokenKind::Ident(String::from("a1_b2")), TokenKind::Eof]
    );
}
