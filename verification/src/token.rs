//! Lexical tokens of the Butter language, and their mathematical model.
//!
//! `TokenKind` is the executable token type produced by the lexer and
//! consumed by the parser.  `TokenV` is its spec-level model, in which every
//! piece of text is a `Seq<char>`.  A float literal carries the exact lexeme
//! text scanned from the source, so that no floating-point value ever enters
//! the front end.

use vstd::prelude::*;

verus! {

/// One classified lexical unit: identifier, keyword, literal, punctuation,
/// or the end-of-input sentinel.
#[derive(Debug, PartialEq)]
pub enum TokenKind {
    Ident(String),

    KwLet,
    KwFn,
    KwIf,
    KwElse,
    KwFor,
    KwStruct,
    KwWhile,
    KwReturn,
    KwOut,
    KwSkip,
    KwTrue,
    KwFalse,
    KwConst,
    KwMut,
    KwImport,

    IntLiteral(i64),
    /// The exact lexeme of a float literal: a digit run, `.`, a digit run.
    FloatLiteral(String),
    StringLiteral(String),

    KwNil,

    Plus,
    Minus,
    Star,
    Slash,
    Percent,

    Equal,
    PlusEqual,
    MinusEqual,
    StarEqual,
    SlashEqual,

    EqEq,
    BangEq,
    Less,
    LessEq,
    Greater,
    GreaterEq,

    Bang,
    AndAnd,
    OrOr,

    Dot,
    FatArrow,
    LParen,
    RParen,
    LBrace,
    RBrace,
    LBracket,
    RBracket,
    Comma,
    Semicolon,
    Colon,

    Eof,
}

/// Spec-level model of a token: text payloads become character sequences.
pub ghost enum TokenV {
    Ident(Seq<char>),

    KwLet,
    KwFn,
    KwIf,
    KwElse,
    KwFor,
    KwStruct,
    KwWhile,
    KwReturn,
    KwOut,
    KwSkip,
    KwTrue,
    KwFalse,
    KwConst,
    KwMut,
    KwImport,

    IntLiteral(i64),
    FloatLiteral(Seq<char>),
    StringLiteral(Seq<char>),

    KwNil,

    Plus,
    Minus,
    Star,
    Slash,
    Percent,

    Equal,
    PlusEqual,
    MinusEqual,
    StarEqual,
    SlashEqual,

    EqEq,
    BangEq,
    Less,
    LessEq,
    Greater,
    GreaterEq,

    Bang,
    AndAnd,
    OrOr,

    Dot,
    FatArrow,
    LParen,
    RParen,
    LBrace,
    RBrace,
    LBracket,
    RBracket,
    Comma,
    Semicolon,
    Colon,

    Eof,
}

impl View for TokenKind {
    type V = TokenV;

    open spec fn view(&self) -> TokenV {
        match self {
            TokenKind::Ident(s) => TokenV::Ident(s@),
            TokenKind::KwLet => TokenV::KwLet,
            TokenKind::KwFn => TokenV::KwFn,
            TokenKind::KwIf => TokenV::KwIf,
            TokenKind::KwElse => TokenV::KwElse,
            TokenKind::KwFor => TokenV::KwFor,
            TokenKind::KwStruct => TokenV::KwStruct,
            TokenKind::KwWhile => TokenV::KwWhile,
            TokenKind::KwReturn => TokenV::KwReturn,
            TokenKind::KwOut => TokenV::KwOut,
            TokenKind::KwSkip => TokenV::KwSkip,
            TokenKind::KwTrue => TokenV::KwTrue,
            TokenKind::KwFalse => TokenV::KwFalse,
            TokenKind::KwConst => TokenV::KwConst,
            TokenKind::KwMut => TokenV::KwMut,
            TokenKind::KwImport => TokenV::KwImport,
            TokenKind::IntLiteral(v) => TokenV::IntLiteral(*v),
            TokenKind::FloatLiteral(s) => TokenV::FloatLiteral(s@),
            TokenKind::StringLiteral(s) => TokenV::StringLiteral(s@),
            TokenKind::KwNil => TokenV::KwNil,
            TokenKind::Plus => TokenV::Plus,
            TokenKind::Minus => TokenV::Minus,
            TokenKind::Star => TokenV::Star,
            TokenKind::Slash => TokenV::Slash,
            TokenKind::Percent => TokenV::Percent,
            TokenKind::Equal => TokenV::Equal,
            TokenKind::PlusEqual => TokenV::PlusEqual,
            TokenKind::MinusEqual => TokenV::MinusEqual,
            TokenKind::StarEqual => TokenV::StarEqual,
            TokenKind::SlashEqual => TokenV::SlashEqual,
            TokenKind::EqEq => TokenV::EqEq,
            TokenKind::BangEq => TokenV::BangEq,
            TokenKind::Less => TokenV::Less,
            TokenKind::LessEq => TokenV::LessEq,
            TokenKind::Greater => TokenV::Greater,
            TokenKind::GreaterEq => TokenV::GreaterEq,
            TokenKind::Bang => TokenV::Bang,
            TokenKind::AndAnd => TokenV::AndAnd,
            TokenKind::OrOr => TokenV::OrOr,
            TokenKind::Dot => TokenV::Dot,
            TokenKind::FatArrow => TokenV::FatArrow,
            TokenKind::LParen => TokenV::LParen,
            TokenKind::RParen => TokenV::RParen,
            TokenKind::LBrace => TokenV::LBrace,
            TokenKind::RBrace => TokenV::RBrace,
            TokenKind::LBracket => TokenV::LBracket,
            TokenKind::RBracket => TokenV::RBracket,
            TokenKind::Comma => TokenV::Comma,
            TokenKind::Semicolon => TokenV::Semicolon,
            TokenKind::Colon => TokenV::Colon,
            TokenKind::Eof => TokenV::Eof,
        }
    }
}

impl Clone for TokenKind {
    /// A clone carries the same model as the original token.
    fn clone(&self) -> (r: TokenKind)
        ensures
            r@ == self@,
    {
        match self {
            TokenKind::Ident(s) => TokenKind::Ident(s.clone()),
            TokenKind::KwLet => TokenKind::KwLet,
            TokenKind::KwFn => TokenKind::KwFn,
            TokenKind::KwIf => TokenKind::KwIf,
            TokenKind::KwElse => TokenKind::KwElse,
            TokenKind::KwFor => TokenKind::KwFor,
            TokenKind::KwStruct => TokenKind::KwStruct,
            TokenKind::KwWhile => TokenKind::KwWhile,
            TokenKind::KwReturn => TokenKind::KwReturn,
            TokenKind::KwOut => TokenKind::KwOut,
            TokenKind::KwSkip => TokenKind::KwSkip,
            TokenKind::KwTrue => TokenKind::KwTrue,
            TokenKind::KwFalse => TokenKind::KwFalse,
            TokenKind::KwConst => TokenKind::KwConst,
            TokenKind::KwMut => TokenKind::KwMut,
            TokenKind::KwImport => TokenKind::KwImport,
            TokenKind::IntLiteral(v) => TokenKind::IntLiteral(*v),
            TokenKind::FloatLiteral(s) => TokenKind::FloatLiteral(s.clone()),
            TokenKind::StringLiteral(s) => TokenKind::StringLiteral(s.clone()),
            TokenKind::KwNil => TokenKind::KwNil,
            TokenKind::Plus => TokenKind::Plus,
            TokenKind::Minus => TokenKind::Minus,
            TokenKind::Star => TokenKind::Star,
            TokenKind::Slash => TokenKind::Slash,
            TokenKind::Percent => TokenKind::Percent,
            TokenKind::Equal => TokenKind::Equal,
            TokenKind::PlusEqual => TokenKind::PlusEqual,
            TokenKind::MinusEqual => TokenKind::MinusEqual,
            TokenKind::StarEqual => TokenKind::StarEqual,
            TokenKind::SlashEqual => TokenKind::SlashEqual,
            TokenKind::EqEq => TokenKind::EqEq,
            TokenKind::BangEq => TokenKind::BangEq,
            TokenKind::Less => TokenKind::Less,
            TokenKind::LessEq => TokenKind::LessEq,
            TokenKind::Greater => TokenKind::Greater,
            TokenKind::GreaterEq => TokenKind::GreaterEq,
            TokenKind::Bang => TokenKind::Bang,
            TokenKind::AndAnd => TokenKind::AndAnd,
            TokenKind::OrOr => TokenKind::OrOr,
            TokenKind::Dot => TokenKind::Dot,
            TokenKind::FatArrow => TokenKind::FatArrow,
            TokenKind::LParen => TokenKind::LParen,
            TokenKind::RParen => TokenKind::RParen,
            TokenKind::LBrace => TokenKind::LBrace,
            TokenKind::RBrace => TokenKind::RBrace,
            TokenKind::LBracket => TokenKind::LBracket,
            TokenKind::RBracket => TokenKind::RBracket,
            TokenKind::Comma => TokenKind::Comma,
            TokenKind::Semicolon => TokenKind::Semicolon,
            TokenKind::Colon => TokenKind::Colon,
            TokenKind::Eof => TokenKind::Eof,
        }
    }
}

/// Decides whether two tokens have the same model.
pub fn token_eq(a: &TokenKind, b: &TokenKind) -> (r: bool)
    ensures
        r == (a@ == b@),
{
    match (a, b) {
        (TokenKind::Ident(x), TokenKind::Ident(y)) => *x == *y,
        (TokenKind::KwLet, TokenKind::KwLet) => true,
        (TokenKind::KwFn, TokenKind::KwFn) => true,
        (TokenKind::KwIf, TokenKind::KwIf) => true,
        (TokenKind::KwElse, TokenKind::KwElse) => true,
        (TokenKind::KwFor, TokenKind::KwFor) => true,
        (TokenKind::KwStruct, TokenKind::KwStruct) => true,
        (TokenKind::KwWhile, TokenKind::KwWhile) => true,
        (TokenKind::KwReturn, TokenKind::KwReturn) => true,
        (TokenKind::KwOut, TokenKind::KwOut) => true,
        (TokenKind::KwSkip, TokenKind::KwSkip) => true,
        (TokenKind::KwTrue, TokenKind::KwTrue) => true,
        (TokenKind::KwFalse, TokenKind::KwFalse) => true,
        (TokenKind::KwConst, TokenKind::KwConst) => true,
        (TokenKind::KwMut, TokenKind::KwMut) => true,
        (TokenKind::KwImport, TokenKind::KwImport) => true,
        (TokenKind::IntLiteral(x), TokenKind::IntLiteral(y)) => *x == *y,
        (TokenKind::FloatLiteral(x), TokenKind::FloatLiteral(y)) => *x == *y,
        (TokenKind::StringLiteral(x), TokenKind::StringLiteral(y)) => *x == *y,
        (TokenKind::KwNil, TokenKind::KwNil) => true,
        (TokenKind::Plus, TokenKind::Plus) => true,
        (TokenKind::Minus, TokenKind::Minus) => true,
        (TokenKind::Star, TokenKind::Star) => true,
        (TokenKind::Slash, TokenKind::Slash) => true,
        (TokenKind::Percent, TokenKind::Percent) => true,
        (TokenKind::Equal, TokenKind::Equal) => true,
        (TokenKind::PlusEqual, TokenKind::PlusEqual) => true,
        (TokenKind::MinusEqual, TokenKind::MinusEqual) => true,
        (TokenKind::StarEqual, TokenKind::StarEqual) => true,
        (TokenKind::SlashEqual, TokenKind::SlashEqual) => true,
        (TokenKind::EqEq, TokenKind::EqEq) => true,
        (TokenKind::BangEq, TokenKind::BangEq) => true,
        (TokenKind::Less, TokenKind::Less) => true,
        (TokenKind::LessEq, TokenKind::LessEq) => true,
        (TokenKind::Greater, TokenKind::Greater) => true,
        (TokenKind::GreaterEq, TokenKind::GreaterEq) => true,
        (TokenKind::Bang, TokenKind::Bang) => true,
        (TokenKind::AndAnd, TokenKind::AndAnd) => true,
        (TokenKind::OrOr, TokenKind::OrOr) => true,
        (TokenKind::Dot, TokenKind::Dot) => true,
        (TokenKind::FatArrow, TokenKind::FatArrow) => true,
        (TokenKind::LParen, TokenKind::LParen) => true,
        (TokenKind::RParen, TokenKind::RParen) => true,
        (TokenKind::LBrace, TokenKind::LBrace) => true,
        (TokenKind::RBrace, TokenKind::RBrace) => true,
        (TokenKind::LBracket, TokenKind::LBracket) => true,
        (TokenKind::RBracket, TokenKind::RBracket) => true,
        (TokenKind::Comma, TokenKind::Comma) => true,
        (TokenKind::Semicolon, TokenKind::Semicolon) => true,
        (TokenKind::Colon, TokenKind::Colon) => true,
        (TokenKind::Eof, TokenKind::Eof) => true,
        _ => false,
    }
}

/// Decides whether two string slices hold the same character sequence.
pub fn str_eq(a: &str, b: &str) -> (r: bool)
    ensures
        r == (a@ == b@),
{
    let na = a.unicode_len();
    let nb = b.unicode_len();
    if na != nb {
        return false;
    }
    let mut i: usize = 0;
    while i < na
        invariant
            na == a@.len(),
            na == b@.len(),
            0 <= i <= na,
            forall|j: int| 0 <= j < i ==> a@[j] == b@[j],
        decreases na - i,
    {
        if a.get_char(i) != b.get_char(i) {
            return false;
        }
        i = i + 1;
    }
    proof {
        assert(a@ =~= b@);
    }
    true
}

} // verus!
