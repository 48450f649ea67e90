//! The parser: single-token-lookahead recursive descent from a token
//! sequence to a `Program`, proved to compute exactly the `sp_*` grammar
//! functions of the `grammar` module.
//!
//! Each executable level takes the token sequence and a cursor and returns
//! the parsed node with the cursor just after it, or the first fatal parse
//! error; the cursor only ever moves forward.  Where the grammar forbids a
//! struct literal — the bare condition of `if` and `while`, so that the
//! following block is not taken for one — the `allow_struct` flag is false;
//! parentheses, argument lists, indexes and field values restore it.

use vstd::prelude::*;
use crate::token::TokenKind;
use crate::token::TokenV;
use crate::token::token_eq;
use crate::token::str_eq;
use crate::lexer::tokens_view;
use crate::ast::Expr;
use crate::ast::ExprV;
use crate::ast::Stmt;
use crate::ast::StmtV;
use crate::ast::Type;
use crate::ast::TypeV;
use crate::ast::BlockOrIf;
use crate::ast::Block;
use crate::ast::Program;
use crate::ast::ProgramV;
use crate::ast::ParseError;
use crate::ast::ParseErrorV;
use crate::ast::PrefixOp;
use crate::ast::InfixOp;
use crate::ast::lemma_exprs_view_push;
use crate::ast::lemma_field_exprs_view_push;
use crate::ast::lemma_field_types_view_push;
use crate::ast::lemma_stmts_view_push;
use crate::ast::exprs_view;
use crate::ast::field_exprs_view;
use crate::ast::field_types_view;
use crate::ast::stmts_view;
use crate::grammar::tok_at;
use crate::grammar::sp_expect;
use crate::grammar::sp_take_ident;
use crate::grammar::sp_type;
use crate::grammar::sp_primary;
use crate::grammar::sp_lit_fields;
use crate::grammar::sp_args;
use crate::grammar::sp_postfix;
use crate::grammar::sp_call;
use crate::grammar::sp_unary;
use crate::grammar::factor_op;
use crate::grammar::sp_factor_tail;
use crate::grammar::sp_factor;
use crate::grammar::term_op;
use crate::grammar::sp_term_tail;
use crate::grammar::sp_term;
use crate::grammar::cmp_op;
use crate::grammar::sp_cmp_tail;
use crate::grammar::sp_comparison;
use crate::grammar::eq_op;
use crate::grammar::sp_eq_tail;
use crate::grammar::sp_equality;
use crate::grammar::sp_and_tail;
use crate::grammar::sp_and;
use crate::grammar::sp_or_tail;
use crate::grammar::sp_or;
use crate::grammar::assign_op;
use crate::grammar::sp_assignment;
use crate::grammar::sp_expr;
use crate::grammar::sp_sfields;
use crate::grammar::sp_params;
use crate::grammar::sp_block_tail;
use crate::grammar::sp_block;
use crate::grammar::sp_while;
use crate::grammar::sp_if;
use crate::grammar::sp_let;
use crate::grammar::sp_func;
use crate::grammar::sp_struct;
use crate::grammar::sp_stmt;
use crate::grammar::sp_decl;
use crate::grammar::sp_program_tail;
use crate::grammar::sp_program;
use crate::grammar::sp_parse_tokens;
use crate::grammar::lemma_sp_expr_body;

verus! {

/// Whether an executable expression-level result matches a grammar value:
/// the same model and cursor on success, within bounds, or the same error.
pub open spec fn expr_outcome(
    sp: Result<(ExprV, int), ParseErrorV>,
    r: Result<(Expr, usize), ParseError>,
    pos: int,
    len: int,
    strict: bool,
) -> bool {
    match r {
        Ok((e, q)) => sp == Ok::<(ExprV, int), ParseErrorV>((e@, q as int)) && pos <= q as int
            && q as int <= len && (strict ==> pos < q as int),
        Err(pe) => sp == Err::<(ExprV, int), ParseErrorV>(pe@),
    }
}

/// Whether an executable statement-level result matches a grammar value.
pub open spec fn stmt_outcome(
    sp: Result<(StmtV, int), ParseErrorV>,
    r: Result<(Stmt, usize), ParseError>,
    pos: int,
    len: int,
) -> bool {
    match r {
        Ok((s, q)) => sp == Ok::<(StmtV, int), ParseErrorV>((s@, q as int)) && pos < q as int
            && q as int <= len,
        Err(pe) => sp == Err::<(StmtV, int), ParseErrorV>(pe@),
    }
}

/// A reference to the token under the cursor, or to the end-of-input token
/// when the cursor is past the sequence.
fn peek<'a>(toks: &'a Vec<TokenKind>, pos: usize) -> (t: &'a TokenKind)
    ensures
        t@ == tok_at(tokens_view(toks@), pos as int),
{
    if pos < toks.len() {
        &toks[pos]
    } else {
        &TokenKind::Eof
    }
}

/// Whether the token under the cursor has the given model, for any sought
/// token other than the end-of-input sentinel; a match also bounds the
/// cursor within the sequence.
fn at_tok(toks: &Vec<TokenKind>, pos: usize, kind: &TokenKind) -> (r: bool)
    requires
        kind@ != TokenV::Eof,
    ensures
        r == (tok_at(tokens_view(toks@), pos as int) == kind@),
        r ==> pos < toks@.len() && pos < usize::MAX,
{
    pos < toks.len() && token_eq(&toks[pos], kind)
}

/// Whether the token under the cursor is the end-of-input sentinel.
fn at_eof(toks: &Vec<TokenKind>, pos: usize) -> (r: bool)
    ensures
        r == (tok_at(tokens_view(toks@), pos as int) == TokenV::Eof),
{
    !(pos < toks.len()) || token_eq(&toks[pos], &TokenKind::Eof)
}

/// Demands one specific token, as `sp_expect` does.
fn expect_tok(toks: &Vec<TokenKind>, pos: usize, kind: TokenKind, ctx: &str) -> (r: Result<
    usize,
    ParseError,
>)
    requires
        pos <= toks@.len(),
        kind@ != TokenV::Eof,
    ensures
        match r {
            Ok(q) => sp_expect(tokens_view(toks@), pos as int, kind@, ctx@) == Ok::<
                int,
                ParseErrorV,
            >(q as int) && q == pos + 1 && pos < toks@.len(),
            Err(e) => sp_expect(tokens_view(toks@), pos as int, kind@, ctx@) == Err::<
                int,
                ParseErrorV,
            >(e@),
        },
{
    if pos < toks.len() {
        if token_eq(&toks[pos], &kind) {
            return Ok(pos + 1);
        }
    }
    Err(
        ParseError::UnexpectedToken {
            expected: kind,
            found: peek(toks, pos).clone(),
            context: ctx.to_owned(),
        },
    )
}

/// Demands an identifier token, as `sp_take_ident` does.
fn take_ident_tok(toks: &Vec<TokenKind>, pos: usize, ctx: &str) -> (r: Result<
    (String, usize),
    ParseError,
>)
    requires
        pos <= toks@.len(),
    ensures
        match r {
            Ok((s, q)) => sp_take_ident(tokens_view(toks@), pos as int, ctx@) == Ok::<
                (Seq<char>, int),
                ParseErrorV,
            >((s@, q as int)) && q == pos + 1 && pos < toks@.len(),
            Err(e) => sp_take_ident(tokens_view(toks@), pos as int, ctx@) == Err::<
                (Seq<char>, int),
                ParseErrorV,
            >(e@),
        },
{
    if pos < toks.len() {
        match &toks[pos] {
            TokenKind::Ident(s) => {
                return Ok((s.clone(), pos + 1));
            },
            _ => {},
        }
    }
    Err(ParseError::ExpectedIdent { found: peek(toks, pos).clone(), context: ctx.to_owned() })
}

/// Parses a type name, as `sp_type` does.
pub fn parse_type(toks: &Vec<TokenKind>, pos: usize) -> (r: Result<(Type, usize), ParseError>)
    requires
        pos <= toks@.len(),
    ensures
        match r {
            Ok((t, q)) => sp_type(tokens_view(toks@), pos as int) == Ok::<
                (TypeV, int),
                ParseErrorV,
            >((t@, q as int)) && q == pos + 1 && pos < toks@.len(),
            Err(e) => sp_type(tokens_view(toks@), pos as int) == Err::<
                (TypeV, int),
                ParseErrorV,
            >(e@),
        },
{
    if pos < toks.len() {
        match &toks[pos] {
            TokenKind::Ident(name) => {
                let t = if str_eq(name.as_str(), "Int") {
                    Type::Int
                } else if str_eq(name.as_str(), "Float") {
                    Type::Float
                } else if str_eq(name.as_str(), "Bool") {
                    Type::Bool
                } else if str_eq(name.as_str(), "String") {
                    Type::Str
                } else {
                    Type::Custom(name.clone())
                };
                return Ok((t, pos + 1));
            },
            TokenKind::KwNil => {
                return Ok((Type::Nil, pos + 1));
            },
            _ => {},
        }
    }
    Err(ParseError::ExpectedType { found: peek(toks, pos).clone() })
}

/// Parses a primary expression, as `sp_primary` does.
#[verifier::rlimit(100)]
pub fn parse_primary(toks: &Vec<TokenKind>, pos: usize, allow_struct: bool) -> (r: Result<
    (Expr, usize),
    ParseError,
>)
    requires
        pos <= toks@.len(),
    ensures
        expr_outcome(
            sp_primary(tokens_view(toks@), pos as int, allow_struct),
            r,
            pos as int,
            toks@.len() as int,
            true,
        ),
    decreases toks@.len() - pos, 1int,
{
    let ghost tv = tokens_view(toks@);
    if pos < toks.len() {
        match &toks[pos] {
            TokenKind::IntLiteral(v) => {
                return Ok((Expr::Int(*v), pos + 1));
            },
            TokenKind::FloatLiteral(s) => {
                return Ok((Expr::Float(s.clone()), pos + 1));
            },
            TokenKind::StringLiteral(s) => {
                return Ok((Expr::Str(s.clone()), pos + 1));
            },
            TokenKind::KwTrue => {
                return Ok((Expr::Bool(true), pos + 1));
            },
            TokenKind::KwFalse => {
                return Ok((Expr::Bool(false), pos + 1));
            },
            TokenKind::KwNil => {
                return Ok((Expr::Nil, pos + 1));
            },
            TokenKind::Ident(name) => {
                if allow_struct && at_tok(toks, pos + 1, &TokenKind::LBrace) {
                    proof {
                        assert(field_exprs_view(Seq::<(String, Expr)>::empty())
                            =~= Seq::<(Seq<char>, ExprV)>::empty());
                    }
                    match parse_lit_fields(toks, Vec::new(), pos + 2) {
                        Err(e) => {
                            return Err(e);
                        },
                        Ok((fields, q)) => {
                            match expect_tok(
                                toks,
                                q,
                                TokenKind::RBrace,
                                "expected '}' after struct literal",
                            ) {
                                Err(e) => {
                                    return Err(e);
                                },
                                Ok(q2) => {
                                    let node = Expr::StructLiteral { name: name.clone(), fields };
                                    return Ok((node, q2));
                                },
                            }
                        },
                    }
                } else {
                    return Ok((Expr::Ident(name.clone()), pos + 1));
                }
            },
            TokenKind::LParen => {
                match parse_expr(toks, pos + 1, true) {
                    Err(e) => {
                        return Err(e);
                    },
                    Ok((inner, q)) => {
                        match expect_tok(
                            toks,
                            q,
                            TokenKind::RParen,
                            "expected ')' after expression",
                        ) {
                            Err(e) => {
                                return Err(e);
                            },
                            Ok(q2) => {
                                let node = Expr::Group(Box::new(inner));
                                return Ok((node, q2));
                            },
                        }
                    },
                }
            },
            _ => {},
        }
    }
    let err = ParseError::UnexpectedPrimary { found: peek(toks, pos).clone() };
    Err(err)
}

/// Parses the field list of a struct literal, as `sp_lit_fields` does.
#[verifier::rlimit(100)]
pub fn parse_lit_fields(toks: &Vec<TokenKind>, acc: Vec<(String, Expr)>, pos: usize) -> (r: Result<
    (Vec<(String, Expr)>, usize),
    ParseError,
>)
    requires
        pos <= toks@.len(),
    ensures
        match r {
            Ok((fs, q)) => sp_lit_fields(tokens_view(toks@), field_exprs_view(acc@), pos as int)
                == Ok::<(Seq<(Seq<char>, ExprV)>, int), ParseErrorV>(
                (field_exprs_view(fs@), q as int),
            ) && pos <= q && q as int <= toks@.len(),
            Err(e) => sp_lit_fields(tokens_view(toks@), field_exprs_view(acc@), pos as int)
                == Err::<(Seq<(Seq<char>, ExprV)>, int), ParseErrorV>(e@),
        },
    decreases toks@.len() - pos, 19int,
{
    let ghost tv = tokens_view(toks@);
    let ghost av = field_exprs_view(acc@);
    if at_tok(toks, pos, &TokenKind::RBrace) || at_eof(toks, pos) {
        return Ok((acc, pos));
    }
    let (nm, p1) = match take_ident_tok(toks, pos, "field name in struct literal") {
        Ok(x) => x,
        Err(e) => {
            return Err(e);
        },
    };
    let p2 = match expect_tok(toks, p1, TokenKind::Equal, "expected '=' after field name") {
        Ok(x) => x,
        Err(e) => {
            return Err(e);
        },
    };
    let (v, q) = match parse_expr(toks, p2, true) {
        Ok(x) => x,
        Err(e) => {
            return Err(e);
        },
    };
    let ghost acc0 = acc@;
    let ghost nm0 = nm@;
    let ghost v0 = v@;
    let mut acc2 = acc;
    acc2.push((nm, v));
    proof {
        lemma_field_exprs_view_push(acc0, acc2@[acc0.len() as int]);
        assert(field_exprs_view(acc2@) == av.push((nm0, v0)));
    }
    if at_tok(toks, q, &TokenKind::Comma) {
        parse_lit_fields(toks, acc2, q + 1)
    } else {
        Ok((acc2, q))
    }
}

/// Parses the argument list of a call, as `sp_args` does.
#[verifier::rlimit(100)]
pub fn parse_args(toks: &Vec<TokenKind>, acc: Vec<Expr>, pos: usize) -> (r: Result<
    (Vec<Expr>, usize),
    ParseError,
>)
    requires
        pos <= toks@.len(),
    ensures
        match r {
            Ok((es, q)) => sp_args(tokens_view(toks@), exprs_view(acc@), pos as int) == Ok::<
                (Seq<ExprV>, int),
                ParseErrorV,
            >((exprs_view(es@), q as int)) && pos <= q && q as int <= toks@.len(),
            Err(e) => sp_args(tokens_view(toks@), exprs_view(acc@), pos as int) == Err::<
                (Seq<ExprV>, int),
                ParseErrorV,
            >(e@),
        },
    decreases toks@.len() - pos, 19int,
{
    let ghost tv = tokens_view(toks@);
    let ghost av = exprs_view(acc@);
    let (e0, q) = match parse_expr(toks, pos, true) {
        Ok(x) => x,
        Err(e) => {
            return Err(e);
        },
    };
    let ghost acc0 = acc@;
    let ghost e00 = e0@;
    let mut acc2 = acc;
    acc2.push(e0);
    proof {
        lemma_exprs_view_push(acc0, acc2@[acc0.len() as int]);
        assert(exprs_view(acc2@) == av.push(e00));
    }
    if at_tok(toks, q, &TokenKind::Comma) {
        parse_args(toks, acc2, q + 1)
    } else {
        Ok((acc2, q))
    }
}

/// Parses the postfix chain on a finished base expression, as `sp_postfix`
/// does.
#[verifier::rlimit(100)]
pub fn parse_postfix(toks: &Vec<TokenKind>, cur: Expr, pos: usize) -> (r: Result<
    (Expr, usize),
    ParseError,
>)
    requires
        pos <= toks@.len(),
    ensures
        match r {
            Ok((e, q)) => sp_postfix(tokens_view(toks@), cur@, pos as int) == Ok::<
                (ExprV, int),
                ParseErrorV,
            >((e@, q as int)) && pos <= q && q as int <= toks@.len(),
            Err(pe) => sp_postfix(tokens_view(toks@), cur@, pos as int) == Err::<
                (ExprV, int),
                ParseErrorV,
            >(pe@),
        },
    decreases toks@.len() - pos, 2int,
{
    let ghost tv = tokens_view(toks@);
    let ghost cv = cur@;
    if at_tok(toks, pos, &TokenKind::LParen) {
        let args_r = if at_tok(toks, pos + 1, &TokenKind::RParen) {
            proof {
                assert(exprs_view(Seq::<Expr>::empty()) =~= Seq::<ExprV>::empty());
            }
            Ok((Vec::<Expr>::new(), pos + 1))
        } else {
            parse_args(toks, Vec::new(), pos + 1)
        };
        match args_r {
            Err(e) => {
                Err(e)
            },
            Ok((args, q)) => {
                match expect_tok(toks, q, TokenKind::RParen, "expected ')' after arguments") {
                    Err(e) => {
                        Err(e)
                    },
                    Ok(q2) => {
                        let node = Expr::Call { callee: Box::new(cur), args };
                        parse_postfix(toks, node, q2)
                    },
                }
            },
        }
    } else if at_tok(toks, pos, &TokenKind::LBracket) {
        match parse_expr(toks, pos + 1, true) {
            Err(e) => {
                Err(e)
            },
            Ok((ix, q)) => {
                match expect_tok(toks, q, TokenKind::RBracket, "expected ']' after index") {
                    Err(e) => {
                        Err(e)
                    },
                    Ok(q2) => {
                        let node = Expr::Index { target: Box::new(cur), index: Box::new(ix) };
                        parse_postfix(toks, node, q2)
                    },
                }
            },
        }
    } else if at_tok(toks, pos, &TokenKind::Dot) {
        match take_ident_tok(toks, pos + 1, "field name after '.'") {
            Err(e) => {
                Err(e)
            },
            Ok((f, q)) => {
                let node = Expr::FieldAccess { target: Box::new(cur), field: f };
                parse_postfix(toks, node, q)
            },
        }
    } else {
        Ok((cur, pos))
    }
}

/// Parses a primary expression and its postfix chain, as `sp_call` does.
pub fn parse_call(toks: &Vec<TokenKind>, pos: usize, allow_struct: bool) -> (r: Result<
    (Expr, usize),
    ParseError,
>)
    requires
        pos <= toks@.len(),
    ensures
        expr_outcome(
            sp_call(tokens_view(toks@), pos as int, allow_struct),
            r,
            pos as int,
            toks@.len() as int,
            true,
        ),
    decreases toks@.len() - pos, 3int,
{
    let ghost tv = tokens_view(toks@);
    match parse_primary(toks, pos, allow_struct) {
        Err(e) => {
            Err(e)
        },
        Ok((e0, q)) => {
            parse_postfix(toks, e0, q)
        },
    }
}

/// Parses a unary prefix expression, as `sp_unary` does.
pub fn parse_unary(toks: &Vec<TokenKind>, pos: usize, allow_struct: bool) -> (r: Result<
    (Expr, usize),
    ParseError,
>)
    requires
        pos <= toks@.len(),
    ensures
        expr_outcome(
            sp_unary(tokens_view(toks@), pos as int, allow_struct),
            r,
            pos as int,
            toks@.len() as int,
            true,
        ),
    decreases toks@.len() - pos, 4int,
{
    let ghost tv = tokens_view(toks@);
    if at_tok(toks, pos, &TokenKind::Bang) {
        match parse_unary(toks, pos + 1, allow_struct) {
            Err(e) => {
                Err(e)
            },
            Ok((rhs, q)) => {
                let node = Expr::Prefix { op: PrefixOp::Not, rhs: Box::new(rhs) };
                Ok((node, q))
            },
        }
    } else if at_tok(toks, pos, &TokenKind::Minus) {
        match parse_unary(toks, pos + 1, allow_struct) {
            Err(e) => {
                Err(e)
            },
            Ok((rhs, q)) => {
                let node = Expr::Prefix { op: PrefixOp::Neg, rhs: Box::new(rhs) };
                Ok((node, q))
            },
        }
    } else {
        parse_call(toks, pos, allow_struct)
    }
}

/// Parses the continuation of this binary level, as `sp_factor_tail` does.
#[verifier::rlimit(100)]
pub fn parse_factor_tail(toks: &Vec<TokenKind>, cur: Expr, pos: usize, allow_struct: bool) -> (r:
    Result<(Expr, usize), ParseError>)
    requires
        pos <= toks@.len(),
    ensures
        match r {
            Ok((e, q)) => sp_factor_tail(tokens_view(toks@), cur@, pos as int, allow_struct) == Ok::<
                (ExprV, int),
                ParseErrorV,
            >((e@, q as int)) && pos <= q && q as int <= toks@.len(),
            Err(pe) => sp_factor_tail(tokens_view(toks@), cur@, pos as int, allow_struct) == Err::<
                (ExprV, int),
                ParseErrorV,
            >(pe@),
        },
    decreases toks@.len() - pos, 5int,
{
    let ghost tv = tokens_view(toks@);
    let ghost cv = cur@;
    let op = if at_tok(toks, pos, &TokenKind::Star) {
        Some(InfixOp::Mul)
    } else if at_tok(toks, pos, &TokenKind::Slash) {
        Some(InfixOp::Div)
    } else if at_tok(toks, pos, &TokenKind::Percent) {
        Some(InfixOp::Mod)
    } else {
        None
    };
    proof {
        assert(op == factor_op(tok_at(tv, pos as int)));
    }
    match op {
        None => {
            Ok((cur, pos))
        },
        Some(o) => {
            match parse_unary(toks, pos + 1, allow_struct) {
                Err(e) => {
                    Err(e)
                },
                Ok((rhs, q)) => {
                    let node = Expr::Infix { op: o, lhs: Box::new(cur), rhs: Box::new(rhs) };
                    parse_factor_tail(toks, node, q, allow_struct)
                },
            }
        },
    }
}

/// Parses this binary level, as `sp_factor` does.
pub fn parse_factor(toks: &Vec<TokenKind>, pos: usize, allow_struct: bool) -> (r: Result<
    (Expr, usize),
    ParseError,
>)
    requires
        pos <= toks@.len(),
    ensures
        expr_outcome(
            sp_factor(tokens_view(toks@), pos as int, allow_struct),
            r,
            pos as int,
            toks@.len() as int,
            true,
        ),
    decreases toks@.len() - pos, 6int,
{
    let ghost tv = tokens_view(toks@);
    match parse_unary(toks, pos, allow_struct) {
        Err(e) => {
            Err(e)
        },
        Ok((e0, q)) => {
            parse_factor_tail(toks, e0, q, allow_struct)
        },
    }
}

/// Parses the continuation of this binary level, as `sp_term_tail` does.
#[verifier::rlimit(100)]
pub fn parse_term_tail(toks: &Vec<TokenKind>, cur: Expr, pos: usize, allow_struct: bool) -> (r:
    Result<(Expr, usize), ParseError>)
    requires
        pos <= toks@.len(),
    ensures
        match r {
            Ok((e, q)) => sp_term_tail(tokens_view(toks@), cur@, pos as int, allow_struct) == Ok::<
                (ExprV, int),
                ParseErrorV,
            >((e@, q as int)) && pos <= q && q as int <= toks@.len(),
            Err(pe) => sp_term_tail(tokens_view(toks@), cur@, pos as int, allow_struct) == Err::<
                (ExprV, int),
                ParseErrorV,
            >(pe@),
        },
    decreases toks@.len() - pos, 7int,
{
    let ghost tv = tokens_view(toks@);
    let ghost cv = cur@;
    let op = if at_tok(toks, pos, &TokenKind::Plus) {
        Some(InfixOp::Add)
    } else if at_tok(toks, pos, &TokenKind::Minus) {
        Some(InfixOp::Sub)
    } else {
        None
    };
    proof {
        assert(op == term_op(tok_at(tv, pos as int)));
    }
    match op {
        None => {
            Ok((cur, pos))
        },
        Some(o) => {
            match parse_factor(toks, pos + 1, allow_struct) {
                Err(e) => {
                    Err(e)
                },
                Ok((rhs, q)) => {
                    let node = Expr::Infix { op: o, lhs: Box::new(cur), rhs: Box::new(rhs) };
                    parse_term_tail(toks, node, q, allow_struct)
                },
            }
        },
    }
}

/// Parses this binary level, as `sp_term` does.
pub fn parse_term(toks: &Vec<TokenKind>, pos: usize, allow_struct: bool) -> (r: Result<
    (Expr, usize),
    ParseError,
>)
    requires
        pos <= toks@.len(),
    ensures
        expr_outcome(
            sp_term(tokens_view(toks@), pos as int, allow_struct),
            r,
            pos as int,
            toks@.len() as int,
            true,
        ),
    decreases toks@.len() - pos, 8int,
{
    let ghost tv = tokens_view(toks@);
    match parse_factor(toks, pos, allow_struct) {
        Err(e) => {
            Err(e)
        },
        Ok((e0, q)) => {
            parse_term_tail(toks, e0, q, allow_struct)
        },
    }
}

/// Parses the continuation of this binary level, as `sp_cmp_tail` does.
#[verifier::rlimit(100)]
pub fn parse_comparison_tail(toks: &Vec<TokenKind>, cur: Expr, pos: usize, allow_struct: bool) -> (r:
    Result<(Expr, usize), ParseError>)
    requires
        pos <= toks@.len(),
    ensures
        match r {
            Ok((e, q)) => sp_cmp_tail(tokens_view(toks@), cur@, pos as int, allow_struct) == Ok::<
                (ExprV, int),
                ParseErrorV,
            >((e@, q as int)) && pos <= q && q as int <= toks@.len(),
            Err(pe) => sp_cmp_tail(tokens_view(toks@), cur@, pos as int, allow_struct) == Err::<
                (ExprV, int),
                ParseErrorV,
            >(pe@),
        },
    decreases toks@.len() - pos, 9int,
{
    let ghost tv = tokens_view(toks@);
    let ghost cv = cur@;
    let op = if at_tok(toks, pos, &TokenKind::Less) {
        Some(InfixOp::Lt)
    } else if at_tok(toks, pos, &TokenKind::LessEq) {
        Some(InfixOp::Le)
    } else if at_tok(toks, pos, &TokenKind::Greater) {
        Some(InfixOp::Gt)
    } else if at_tok(toks, pos, &TokenKind::GreaterEq) {
        Some(InfixOp::Ge)
    } else {
        None
    };
    proof {
        assert(op == cmp_op(tok_at(tv, pos as int)));
    }
    match op {
        None => {
            Ok((cur, pos))
        },
        Some(o) => {
            match parse_term(toks, pos + 1, allow_struct) {
                Err(e) => {
                    Err(e)
                },
                Ok((rhs, q)) => {
                    let node = Expr::Infix { op: o, lhs: Box::new(cur), rhs: Box::new(rhs) };
                    parse_comparison_tail(toks, node, q, allow_struct)
                },
            }
        },
    }
}

/// Parses this binary level, as `sp_comparison` does.
pub fn parse_comparison(toks: &Vec<TokenKind>, pos: usize, allow_struct: bool) -> (r: Result<
    (Expr, usize),
    ParseError,
>)
    requires
        pos <= toks@.len(),
    ensures
        expr_outcome(
            sp_comparison(tokens_view(toks@), pos as int, allow_struct),
            r,
            pos as int,
            toks@.len() as int,
            true,
        ),
    decreases toks@.len() - pos, 10int,
{
    let ghost tv = tokens_view(toks@);
    match parse_term(toks, pos, allow_struct) {
        Err(e) => {
            Err(e)
        },
        Ok((e0, q)) => {
            parse_comparison_tail(toks, e0, q, allow_struct)
        },
    }
}

/// Parses the continuation of this binary level, as `sp_eq_tail` does.
#[verifier::rlimit(100)]
pub fn parse_equality_tail(toks: &Vec<TokenKind>, cur: Expr, pos: usize, allow_struct: bool) -> (r:
    Result<(Expr, usize), ParseError>)
    requires
        pos <= toks@.len(),
    ensures
        match r {
            Ok((e, q)) => sp_eq_tail(tokens_view(toks@), cur@, pos as int, allow_struct) == Ok::<
                (ExprV, int),
                ParseErrorV,
            >((e@, q as int)) && pos <= q && q as int <= toks@.len(),
            Err(pe) => sp_eq_tail(tokens_view(toks@), cur@, pos as int, allow_struct) == Err::<
                (ExprV, int),
                ParseErrorV,
            >(pe@),
        },
    decreases toks@.len() - pos, 11int,
{
    let ghost tv = tokens_view(toks@);
    let ghost cv = cur@;
    let op = if at_tok(toks, pos, &TokenKind::EqEq) {
        Some(InfixOp::Eq)
    } else if at_tok(toks, pos, &TokenKind::BangEq) {
        Some(InfixOp::Ne)
    } else {
        None
    };
    proof {
        assert(op == eq_op(tok_at(tv, pos as int)));
    }
    match op {
        None => {
            Ok((cur, pos))
        },
        Some(o) => {
            match parse_comparison(toks, pos + 1, allow_struct) {
                Err(e) => {
                    Err(e)
                },
                Ok((rhs, q)) => {
                    let node = Expr::Infix { op: o, lhs: Box::new(cur), rhs: Box::new(rhs) };
                    parse_equality_tail(toks, node, q, allow_struct)
                },
            }
        },
    }
}

/// Parses this binary level, as `sp_equality` does.
pub fn parse_equality(toks: &Vec<TokenKind>, pos: usize, allow_struct: bool) -> (r: Result<
    (Expr, usize),
    ParseError,
>)
    requires
        pos <= toks@.len(),
    ensures
        expr_outcome(
            sp_equality(tokens_view(toks@), pos as int, allow_struct),
            r,
            pos as int,
            toks@.len() as int,
            true,
        ),
    decreases toks@.len() - pos, 12int,
{
    let ghost tv = tokens_view(toks@);
    match parse_comparison(toks, pos, allow_struct) {
        Err(e) => {
            Err(e)
        },
        Ok((e0, q)) => {
            parse_equality_tail(toks, e0, q, allow_struct)
        },
    }
}

/// Parses the continuation of this binary level, as `sp_and_tail` does.
#[verifier::rlimit(100)]
pub fn parse_and_tail(toks: &Vec<TokenKind>, cur: Expr, pos: usize, allow_struct: bool) -> (r:
    Result<(Expr, usize), ParseError>)
    requires
        pos <= toks@.len(),
    ensures
        match r {
            Ok((e, q)) => sp_and_tail(tokens_view(toks@), cur@, pos as int, allow_struct) == Ok::<
                (ExprV, int),
                ParseErrorV,
            >((e@, q as int)) && pos <= q && q as int <= toks@.len(),
            Err(pe) => sp_and_tail(tokens_view(toks@), cur@, pos as int, allow_struct) == Err::<
                (ExprV, int),
                ParseErrorV,
            >(pe@),
        },
    decreases toks@.len() - pos, 13int,
{
    let ghost tv = tokens_view(toks@);
    let ghost cv = cur@;
    if at_tok(toks, pos, &TokenKind::AndAnd) {
        match parse_equality(toks, pos + 1, allow_struct) {
            Err(e) => {
                Err(e)
            },
            Ok((rhs, q)) => {
                let node = Expr::Infix { op: InfixOp::And, lhs: Box::new(cur), rhs: Box::new(rhs) };
                parse_and_tail(toks, node, q, allow_struct)
            },
        }
    } else {
        Ok((cur, pos))
    }
}

/// Parses this binary level, as `sp_and` does.
pub fn parse_and(toks: &Vec<TokenKind>, pos: usize, allow_struct: bool) -> (r: Result<
    (Expr, usize),
    ParseError,
>)
    requires
        pos <= toks@.len(),
    ensures
        expr_outcome(
            sp_and(tokens_view(toks@), pos as int, allow_struct),
            r,
            pos as int,
            toks@.len() as int,
            true,
        ),
    decreases toks@.len() - pos, 14int,
{
    let ghost tv = tokens_view(toks@);
    match parse_equality(toks, pos, allow_struct) {
        Err(e) => {
            Err(e)
        },
        Ok((e0, q)) => {
            parse_and_tail(toks, e0, q, allow_struct)
        },
    }
}

/// Parses the continuation of this binary level, as `sp_or_tail` does.
#[verifier::rlimit(100)]
pub fn parse_or_tail(toks: &Vec<TokenKind>, cur: Expr, pos: usize, allow_struct: bool) -> (r:
    Result<(Expr, usize), ParseError>)
    requires
        pos <= toks@.len(),
    ensures
        match r {
            Ok((e, q)) => sp_or_tail(tokens_view(toks@), cur@, pos as int, allow_struct) == Ok::<
                (ExprV, int),
                ParseErrorV,
            >((e@, q as int)) && pos <= q && q as int <= toks@.len(),
            Err(pe) => sp_or_tail(tokens_view(toks@), cur@, pos as int, allow_struct) == Err::<
                (ExprV, int),
                ParseErrorV,
            >(pe@),
        },
    decreases toks@.len() - pos, 15int,
{
    let ghost tv = tokens_view(toks@);
    let ghost cv = cur@;
    if at_tok(toks, pos, &TokenKind::OrOr) {
        match parse_and(toks, pos + 1, allow_struct) {
            Err(e) => {
                Err(e)
            },
            Ok((rhs, q)) => {
                let node = Expr::Infix { op: InfixOp::Or, lhs: Box::new(cur), rhs: Box::new(rhs) };
                parse_or_tail(toks, node, q, allow_struct)
            },
        }
    } else {
        Ok((cur, pos))
    }
}

/// Parses this binary level, as `sp_or` does.
pub fn parse_or(toks: &Vec<TokenKind>, pos: usize, allow_struct: bool) -> (r: Result<
    (Expr, usize),
    ParseError,
>)
    requires
        pos <= toks@.len(),
    ensures
        expr_outcome(
            sp_or(tokens_view(toks@), pos as int, allow_struct),
            r,
            pos as int,
            toks@.len() as int,
            true,
        ),
    decreases toks@.len() - pos, 16int,
{
    let ghost tv = tokens_view(toks@);
    match parse_and(toks, pos, allow_struct) {
        Err(e) => {
            Err(e)
        },
        Ok((e0, q)) => {
            parse_or_tail(toks, e0, q, allow_struct)
        },
    }
}

/// Parses an assignment expression, as `sp_assignment` does: the assignment
/// family is right-associative.
#[verifier::rlimit(100)]
pub fn parse_assignment(toks: &Vec<TokenKind>, pos: usize, allow_struct: bool) -> (r: Result<
    (Expr, usize),
    ParseError,
>)
    requires
        pos <= toks@.len(),
    ensures
        expr_outcome(
            sp_assignment(tokens_view(toks@), pos as int, allow_struct),
            r,
            pos as int,
            toks@.len() as int,
            true,
        ),
    decreases toks@.len() - pos, 17int,
{
    let ghost tv = tokens_view(toks@);
    let (lhs, q) = match parse_or(toks, pos, allow_struct) {
        Ok(x) => x,
        Err(e) => {
            return Err(e);
        },
    };
    let op = if at_tok(toks, q, &TokenKind::Equal) {
        Some(InfixOp::Assign)
    } else if at_tok(toks, q, &TokenKind::PlusEqual) {
        Some(InfixOp::AddAssign)
    } else if at_tok(toks, q, &TokenKind::MinusEqual) {
        Some(InfixOp::SubAssign)
    } else if at_tok(toks, q, &TokenKind::StarEqual) {
        Some(InfixOp::MulAssign)
    } else if at_tok(toks, q, &TokenKind::SlashEqual) {
        Some(InfixOp::DivAssign)
    } else {
        None
    };
    proof {
        assert(op == assign_op(tok_at(tv, q as int)));
    }
    match op {
        None => {
            Ok((lhs, q))
        },
        Some(o) => {
            match parse_assignment(toks, q + 1, allow_struct) {
                Err(e) => {
                    Err(e)
                },
                Ok((rhs, q2)) => {
                    let node = Expr::Infix { op: o, lhs: Box::new(lhs), rhs: Box::new(rhs) };
                    Ok((node, q2))
                },
            }
        },
    }
}

/// Parses a whole expression, as `sp_expr` does.
pub fn parse_expr(toks: &Vec<TokenKind>, pos: usize, allow_struct: bool) -> (r: Result<
    (Expr, usize),
    ParseError,
>)
    requires
        pos <= toks@.len(),
    ensures
        expr_outcome(
            sp_expr(tokens_view(toks@), pos as int, allow_struct),
            r,
            pos as int,
            toks@.len() as int,
            true,
        ),
    decreases toks@.len() - pos, 18int,
{
    let ghost tv = tokens_view(toks@);
    proof {
        lemma_sp_expr_body(tv, pos as int, allow_struct);
    }
    parse_assignment(toks, pos, allow_struct)
}


/// Parses the field list of a struct declaration, as `sp_sfields` does.
pub fn parse_sfields(toks: &Vec<TokenKind>, acc: Vec<(String, Type)>, pos: usize) -> (r: Result<
    (Vec<(String, Type)>, usize),
    ParseError,
>)
    requires
        pos <= toks@.len(),
    ensures
        match r {
            Ok((fs, q)) => sp_sfields(tokens_view(toks@), field_types_view(acc@), pos as int)
                == Ok::<(Seq<(Seq<char>, TypeV)>, int), ParseErrorV>(
                (field_types_view(fs@), q as int),
            ) && pos <= q && q as int <= toks@.len(),
            Err(e) => sp_sfields(tokens_view(toks@), field_types_view(acc@), pos as int) == Err::<
                (Seq<(Seq<char>, TypeV)>, int),
                ParseErrorV,
            >(e@),
        },
    decreases toks@.len() - pos, 19int,
{
    let ghost tv = tokens_view(toks@);
    let ghost av = field_types_view(acc@);
    if at_tok(toks, pos, &TokenKind::RBrace) || at_eof(toks, pos) {
        return Ok((acc, pos));
    }
    let (nm, p1) = match take_ident_tok(toks, pos, "field name") {
        Ok(x) => x,
        Err(e) => {
            return Err(e);
        },
    };
    let p2 = match expect_tok(toks, p1, TokenKind::Colon, "expected ':' after field name") {
        Ok(x) => x,
        Err(e) => {
            return Err(e);
        },
    };
    let (ty, p3) = match parse_type(toks, p2) {
        Ok(x) => x,
        Err(e) => {
            return Err(e);
        },
    };
    let ghost acc0 = acc@;
    let ghost nm0 = nm@;
    let ghost ty0 = ty@;
    let mut acc2 = acc;
    acc2.push((nm, ty));
    proof {
        lemma_field_types_view_push(acc0, acc2@[acc0.len() as int]);
        assert(field_types_view(acc2@) == av.push((nm0, ty0)));
    }
    if at_tok(toks, p3, &TokenKind::Comma) {
        parse_sfields(toks, acc2, p3 + 1)
    } else {
        Ok((acc2, p3))
    }
}

/// Parses the parameter list of a function declaration, as `sp_params`
/// does.
pub fn parse_params(toks: &Vec<TokenKind>, acc: Vec<(String, Type)>, pos: usize) -> (r: Result<
    (Vec<(String, Type)>, usize),
    ParseError,
>)
    requires
        pos <= toks@.len(),
    ensures
        match r {
            Ok((fs, q)) => sp_params(tokens_view(toks@), field_types_view(acc@), pos as int)
                == Ok::<(Seq<(Seq<char>, TypeV)>, int), ParseErrorV>(
                (field_types_view(fs@), q as int),
            ) && pos <= q && q as int <= toks@.len(),
            Err(e) => sp_params(tokens_view(toks@), field_types_view(acc@), pos as int) == Err::<
                (Seq<(Seq<char>, TypeV)>, int),
                ParseErrorV,
            >(e@),
        },
    decreases toks@.len() - pos, 19int,
{
    let ghost tv = tokens_view(toks@);
    let ghost av = field_types_view(acc@);
    let (nm, p1) = match take_ident_tok(toks, pos, "parameter name") {
        Ok(x) => x,
        Err(e) => {
            return Err(e);
        },
    };
    let p2 = match expect_tok(toks, p1, TokenKind::Colon, "expected ':' after parameter name") {
        Ok(x) => x,
        Err(e) => {
            return Err(e);
        },
    };
    let (ty, p3) = match parse_type(toks, p2) {
        Ok(x) => x,
        Err(e) => {
            return Err(e);
        },
    };
    let ghost acc0 = acc@;
    let ghost nm0 = nm@;
    let ghost ty0 = ty@;
    let mut acc2 = acc;
    acc2.push((nm, ty));
    proof {
        lemma_field_types_view_push(acc0, acc2@[acc0.len() as int]);
        assert(field_types_view(acc2@) == av.push((nm0, ty0)));
    }
    if at_tok(toks, p3, &TokenKind::Comma) {
        parse_params(toks, acc2, p3 + 1)
    } else {
        Ok((acc2, p3))
    }
}

/// Parses the statements of a block up to its closing brace, as
/// `sp_block_tail` does.
pub fn parse_block_tail(toks: &Vec<TokenKind>, acc: Vec<Stmt>, pos: usize) -> (r: Result<
    (Vec<Stmt>, usize),
    ParseError,
>)
    requires
        pos <= toks@.len(),
    ensures
        match r {
            Ok((ss, q)) => sp_block_tail(tokens_view(toks@), stmts_view(acc@), pos as int) == Ok::<
                (Seq<StmtV>, int),
                ParseErrorV,
            >((stmts_view(ss@), q as int)) && pos <= q && q as int <= toks@.len(),
            Err(e) => sp_block_tail(tokens_view(toks@), stmts_view(acc@), pos as int) == Err::<
                (Seq<StmtV>, int),
                ParseErrorV,
            >(e@),
        },
    decreases toks@.len() - pos, 26int,
{
    let ghost tv = tokens_view(toks@);
    let ghost av = stmts_view(acc@);
    if at_tok(toks, pos, &TokenKind::RBrace) || at_eof(toks, pos) {
        return Ok((acc, pos));
    }
    let (s0, q) = match parse_decl(toks, pos) {
        Ok(x) => x,
        Err(e) => {
            return Err(e);
        },
    };
    let ghost acc0 = acc@;
    let ghost s00 = s0@;
    let mut acc2 = acc;
    acc2.push(s0);
    proof {
        lemma_stmts_view_push(acc0, acc2@[acc0.len() as int]);
        assert(stmts_view(acc2@) == av.push(s00));
    }
    parse_block_tail(toks, acc2, q)
}

/// Parses a braced block, as `sp_block` does.
pub fn parse_block(toks: &Vec<TokenKind>, pos: usize) -> (r: Result<(Block, usize), ParseError>)
    requires
        pos <= toks@.len(),
    ensures
        match r {
            Ok((ss, q)) => sp_block(tokens_view(toks@), pos as int) == Ok::<
                (Seq<StmtV>, int),
                ParseErrorV,
            >((stmts_view(ss@), q as int)) && pos < q && q as int <= toks@.len(),
            Err(e) => sp_block(tokens_view(toks@), pos as int) == Err::<
                (Seq<StmtV>, int),
                ParseErrorV,
            >(e@),
        },
    decreases toks@.len() - pos, 21int,
{
    let ghost tv = tokens_view(toks@);
    let p1 = match expect_tok(toks, pos, TokenKind::LBrace, "expected '{' to start block") {
        Ok(x) => x,
        Err(e) => {
            return Err(e);
        },
    };
    proof {
        assert(stmts_view(Seq::<Stmt>::empty()) =~= Seq::<StmtV>::empty());
    }
    let (ss, q) = match parse_block_tail(toks, Vec::new(), p1) {
        Ok(x) => x,
        Err(e) => {
            return Err(e);
        },
    };
    let q2 = match expect_tok(toks, q, TokenKind::RBrace, "expected '}' to end block") {
        Ok(x) => x,
        Err(e) => {
            return Err(e);
        },
    };
    Ok((ss, q2))
}

/// Parses a while loop, as `sp_while` does.
pub fn parse_while(toks: &Vec<TokenKind>, pos: usize) -> (r: Result<(Stmt, usize), ParseError>)
    requires
        pos <= toks@.len(),
    ensures
        stmt_outcome(
            sp_while(tokens_view(toks@), pos as int),
            r,
            pos as int,
            toks@.len() as int,
        ),
    decreases toks@.len() - pos, 22int,
{
    let ghost tv = tokens_view(toks@);
    let p1 = match expect_tok(toks, pos, TokenKind::KwWhile, "expected 'while'") {
        Ok(x) => x,
        Err(e) => {
            return Err(e);
        },
    };
    let (cond, q) = match parse_expr(toks, p1, false) {
        Ok(x) => x,
        Err(e) => {
            return Err(e);
        },
    };
    let (body, q2) = match parse_block(toks, q) {
        Ok(x) => x,
        Err(e) => {
            return Err(e);
        },
    };
    Ok((Stmt::While { cond, body }, q2))
}

/// Parses an if statement and its else chain, as `sp_if` does.
#[verifier::rlimit(100)]
pub fn parse_if(toks: &Vec<TokenKind>, pos: usize) -> (r: Result<(Stmt, usize), ParseError>)
    requires
        pos <= toks@.len(),
    ensures
        stmt_outcome(sp_if(tokens_view(toks@), pos as int), r, pos as int, toks@.len() as int),
    decreases toks@.len() - pos, 22int,
{
    let ghost tv = tokens_view(toks@);
    let p1 = match expect_tok(toks, pos, TokenKind::KwIf, "expected 'if'") {
        Ok(x) => x,
        Err(e) => {
            return Err(e);
        },
    };
    let (cond, q1) = match parse_expr(toks, p1, false) {
        Ok(x) => x,
        Err(e) => {
            return Err(e);
        },
    };
    let (thenb, q2) = match parse_block(toks, q1) {
        Ok(x) => x,
        Err(e) => {
            return Err(e);
        },
    };
    if at_tok(toks, q2, &TokenKind::KwElse) {
        if at_tok(toks, q2 + 1, &TokenKind::KwIf) {
            match parse_if(toks, q2 + 1) {
                Err(e) => Err(e),
                Ok((nested, q3)) => Ok(
                    (
                        Stmt::If {
                            cond,
                            then_branch: thenb,
                            else_branch: Some(BlockOrIf::If(Box::new(nested))),
                        },
                        q3,
                    ),
                ),
            }
        } else {
            match parse_block(toks, q2 + 1) {
                Err(e) => Err(e),
                Ok((eb, q3)) => Ok(
                    (
                        Stmt::If {
                            cond,
                            then_branch: thenb,
                            else_branch: Some(BlockOrIf::Block(eb)),
                        },
                        q3,
                    ),
                ),
            }
        }
    } else {
        Ok((Stmt::If { cond, then_branch: thenb, else_branch: None }, q2))
    }
}

/// Parses a variable declaration, as `sp_let` does.
#[verifier::rlimit(100)]
pub fn parse_let(toks: &Vec<TokenKind>, pos: usize) -> (r: Result<(Stmt, usize), ParseError>)
    requires
        pos <= toks@.len(),
    ensures
        stmt_outcome(sp_let(tokens_view(toks@), pos as int), r, pos as int, toks@.len() as int),
    decreases toks@.len() - pos, 22int,
{
    let ghost tv = tokens_view(toks@);
    let is_const = at_tok(toks, pos, &TokenKind::KwConst);
    let p1 = if is_const {
        pos + 1
    } else {
        match expect_tok(toks, pos, TokenKind::KwLet, "expected 'let' or 'const'") {
            Ok(x) => x,
            Err(e) => {
                return Err(e);
            },
        }
    };
    let has_mut = at_tok(toks, p1, &TokenKind::KwMut);
    let p2 = if has_mut {
        p1 + 1
    } else {
        p1
    };
    let (name, p3) = match take_ident_tok(toks, p2, "variable name") {
        Ok(x) => x,
        Err(e) => {
            return Err(e);
        },
    };
    let p4 = match expect_tok(toks, p3, TokenKind::Colon, "expected ':' after variable name") {
        Ok(x) => x,
        Err(e) => {
            return Err(e);
        },
    };
    let (vt, p5) = match parse_type(toks, p4) {
        Ok(x) => x,
        Err(e) => {
            return Err(e);
        },
    };
    let (value, q) = if at_tok(toks, p5, &TokenKind::Equal) {
        match parse_expr(toks, p5 + 1, true) {
            Ok((v, q)) => (Some(v), q),
            Err(e) => {
                return Err(e);
            },
        }
    } else {
        (None, p5)
    };
    let q2 = match expect_tok(toks, q, TokenKind::Semicolon, "expected ';' after let/const") {
        Ok(x) => x,
        Err(e) => {
            return Err(e);
        },
    };
    let mutable = if is_const {
        false
    } else {
        has_mut
    };
    Ok((Stmt::Let { name, mutable, valuetype: vt, value }, q2))
}

/// Parses a function declaration, as `sp_func` does.
#[verifier::rlimit(100)]
pub fn parse_func(toks: &Vec<TokenKind>, pos: usize) -> (r: Result<(Stmt, usize), ParseError>)
    requires
        pos <= toks@.len(),
    ensures
        stmt_outcome(sp_func(tokens_view(toks@), pos as int), r, pos as int, toks@.len() as int),
    decreases toks@.len() - pos, 22int,
{
    let ghost tv = tokens_view(toks@);
    let p1 = match expect_tok(toks, pos, TokenKind::KwFn, "expected 'fn'") {
        Ok(x) => x,
        Err(e) => {
            return Err(e);
        },
    };
    let (name, p2) = match take_ident_tok(toks, p1, "function name") {
        Ok(x) => x,
        Err(e) => {
            return Err(e);
        },
    };
    let p3 = match expect_tok(toks, p2, TokenKind::LParen, "expected '(' after function name") {
        Ok(x) => x,
        Err(e) => {
            return Err(e);
        },
    };
    proof {
        assert(field_types_view(Seq::<(String, Type)>::empty())
            =~= Seq::<(Seq<char>, TypeV)>::empty());
    }
    let (params, q) = if at_tok(toks, p3, &TokenKind::RParen) {
        (Vec::new(), p3)
    } else {
        match parse_params(toks, Vec::new(), p3) {
            Ok(x) => x,
            Err(e) => {
                return Err(e);
            },
        }
    };
    let q1 = match expect_tok(toks, q, TokenKind::RParen, "expected ')' after parameters") {
        Ok(x) => x,
        Err(e) => {
            return Err(e);
        },
    };
    let q2 = match expect_tok(
        toks,
        q1,
        TokenKind::FatArrow,
        "expected '=>' after function parameters",
    ) {
        Ok(x) => x,
        Err(e) => {
            return Err(e);
        },
    };
    let (rt, q3) = match parse_type(toks, q2) {
        Ok(x) => x,
        Err(e) => {
            return Err(e);
        },
    };
    let (body, q4) = match parse_block(toks, q3) {
        Ok(x) => x,
        Err(e) => {
            return Err(e);
        },
    };
    Ok((Stmt::Func { name, params, returntype: rt, body }, q4))
}

/// Parses a struct type declaration, as `sp_struct` does.
pub fn parse_struct(toks: &Vec<TokenKind>, pos: usize) -> (r: Result<(Stmt, usize), ParseError>)
    requires
        pos <= toks@.len(),
    ensures
        stmt_outcome(
            sp_struct(tokens_view(toks@), pos as int),
            r,
            pos as int,
            toks@.len() as int,
        ),
    decreases toks@.len() - pos, 22int,
{
    let ghost tv = tokens_view(toks@);
    let p1 = match expect_tok(toks, pos, TokenKind::KwStruct, "expected 'struct'") {
        Ok(x) => x,
        Err(e) => {
            return Err(e);
        },
    };
    let (name, p2) = match take_ident_tok(toks, p1, "struct name") {
        Ok(x) => x,
        Err(e) => {
            return Err(e);
        },
    };
    let p3 = match expect_tok(toks, p2, TokenKind::LBrace, "expected '{' after struct name") {
        Ok(x) => x,
        Err(e) => {
            return Err(e);
        },
    };
    proof {
        assert(field_types_view(Seq::<(String, Type)>::empty())
            =~= Seq::<(Seq<char>, TypeV)>::empty());
    }
    let (fields, q) = match parse_sfields(toks, Vec::new(), p3) {
        Ok(x) => x,
        Err(e) => {
            return Err(e);
        },
    };
    let q2 = match expect_tok(toks, q, TokenKind::RBrace, "expected '}' to end a struct") {
        Ok(x) => x,
        Err(e) => {
            return Err(e);
        },
    };
    Ok((Stmt::Struct { name, fields }, q2))
}

/// Parses one statement, as `sp_stmt` does.
#[verifier::rlimit(100)]
pub fn parse_stmt(toks: &Vec<TokenKind>, pos: usize) -> (r: Result<(Stmt, usize), ParseError>)
    requires
        pos <= toks@.len(),
    ensures
        stmt_outcome(sp_stmt(tokens_view(toks@), pos as int), r, pos as int, toks@.len() as int),
    decreases toks@.len() - pos, 24int,
{
    let ghost tv = tokens_view(toks@);
    if at_tok(toks, pos, &TokenKind::KwReturn) {
        if at_tok(toks, pos + 1, &TokenKind::Semicolon) {
            return Ok((Stmt::Return(None), pos + 2));
        }
        let (v, q) = match parse_expr(toks, pos + 1, true) {
            Ok(x) => x,
            Err(e) => {
                return Err(e);
            },
        };
        let q2 = match expect_tok(
            toks,
            q,
            TokenKind::Semicolon,
            "expected ';' after return expression",
        ) {
            Ok(x) => x,
            Err(e) => {
                return Err(e);
            },
        };
        return Ok((Stmt::Return(Some(v)), q2));
    }
    if at_tok(toks, pos, &TokenKind::KwWhile) {
        return parse_while(toks, pos);
    }
    if at_tok(toks, pos, &TokenKind::KwIf) {
        return parse_if(toks, pos);
    }
    if at_tok(toks, pos, &TokenKind::LBrace) {
        return match parse_block(toks, pos) {
            Err(e) => Err(e),
            Ok((b, q)) => Ok((Stmt::Block(b), q)),
        };
    }
    if at_tok(toks, pos, &TokenKind::KwOut) {
        return match expect_tok(toks, pos + 1, TokenKind::Semicolon, "expected ';' after 'out'") {
            Err(e) => Err(e),
            Ok(q) => Ok((Stmt::Out, q)),
        };
    }
    if at_tok(toks, pos, &TokenKind::KwSkip) {
        return match expect_tok(toks, pos + 1, TokenKind::Semicolon, "expected ';' after 'skip'") {
            Err(e) => Err(e),
            Ok(q) => Ok((Stmt::Skip, q)),
        };
    }
    let (v, q) = match parse_expr(toks, pos, true) {
        Ok(x) => x,
        Err(e) => {
            return Err(e);
        },
    };
    let q2 = match expect_tok(toks, q, TokenKind::Semicolon, "expected ';' after expression") {
        Ok(x) => x,
        Err(e) => {
            return Err(e);
        },
    };
    Ok((Stmt::ExprStmt(v), q2))
}

/// Parses one top-level declaration, as `sp_decl` does.
pub fn parse_decl(toks: &Vec<TokenKind>, pos: usize) -> (r: Result<(Stmt, usize), ParseError>)
    requires
        pos <= toks@.len(),
    ensures
        stmt_outcome(sp_decl(tokens_view(toks@), pos as int), r, pos as int, toks@.len() as int),
    decreases toks@.len() - pos, 25int,
{
    let ghost tv = tokens_view(toks@);
    if at_tok(toks, pos, &TokenKind::KwFn) {
        return parse_func(toks, pos);
    }
    if at_tok(toks, pos, &TokenKind::KwLet) || at_tok(toks, pos, &TokenKind::KwConst) {
        return parse_let(toks, pos);
    }
    if at_tok(toks, pos, &TokenKind::KwStruct) {
        return parse_struct(toks, pos);
    }
    parse_stmt(toks, pos)
}

/// Parses declarations up to the end-of-input token, as `sp_program_tail`
/// does.
pub fn parse_program_tail(toks: &Vec<TokenKind>, acc: Vec<Stmt>, pos: usize) -> (r: Result<
    (Vec<Stmt>, usize),
    ParseError,
>)
    requires
        pos <= toks@.len(),
    ensures
        match r {
            Ok((ss, q)) => sp_program_tail(tokens_view(toks@), stmts_view(acc@), pos as int)
                == Ok::<(Seq<StmtV>, int), ParseErrorV>((stmts_view(ss@), q as int)) && pos <= q
                && q as int <= toks@.len(),
            Err(e) => sp_program_tail(tokens_view(toks@), stmts_view(acc@), pos as int) == Err::<
                (Seq<StmtV>, int),
                ParseErrorV,
            >(e@),
        },
    decreases toks@.len() - pos, 27int,
{
    let ghost tv = tokens_view(toks@);
    let ghost av = stmts_view(acc@);
    if at_eof(toks, pos) {
        return Ok((acc, pos));
    }
    let (s0, q) = match parse_decl(toks, pos) {
        Ok(x) => x,
        Err(e) => {
            return Err(e);
        },
    };
    let ghost acc0 = acc@;
    let ghost s00 = s0@;
    let mut acc2 = acc;
    acc2.push(s0);
    proof {
        lemma_stmts_view_push(acc0, acc2@[acc0.len() as int]);
        assert(stmts_view(acc2@) == av.push(s00));
    }
    parse_program_tail(toks, acc2, q)
}

/// Parses a whole program from a position, as `sp_program` does.
pub fn parse_program_at(toks: &Vec<TokenKind>, pos: usize) -> (r: Result<
    (Program, usize),
    ParseError,
>)
    requires
        pos <= toks@.len(),
    ensures
        match r {
            Ok((pr, q)) => sp_program(tokens_view(toks@), pos as int) == Ok::<
                (ProgramV, int),
                ParseErrorV,
            >((pr@, q as int)) && pos <= q && q as int <= toks@.len(),
            Err(e) => sp_program(tokens_view(toks@), pos as int) == Err::<
                (ProgramV, int),
                ParseErrorV,
            >(e@),
        },
    decreases toks@.len() - pos, 28int,
{
    let ghost tv = tokens_view(toks@);
    proof {
        assert(stmts_view(Seq::<Stmt>::empty()) =~= Seq::<StmtV>::empty());
    }
    match parse_program_tail(toks, Vec::new(), pos) {
        Err(e) => Err(e),
        Ok((ss, q)) => Ok((Program { stmts: ss }, q)),
    }
}

/// A single-token-lookahead cursor over an immutable token sequence; the
/// cursor only moves forward.
pub struct Parser {
    tokens: Vec<TokenKind>,
    pos: usize,
}

impl Parser {
    /// The models of the tokens being parsed.
    pub closed spec fn toks(&self) -> Seq<TokenV> {
        tokens_view(self.tokens@)
    }

    /// The current cursor position.
    pub closed spec fn cursor(&self) -> int {
        self.pos as int
    }

    /// The cursor stays within the token sequence.
    pub closed spec fn wf(&self) -> bool {
        self.pos <= self.tokens@.len()
    }

    /// Starts a parse at the first token.
    pub fn new(tokens: Vec<TokenKind>) -> (p: Parser)
        ensures
            p.wf(),
            p.toks() == tokens_view(tokens@),
            p.cursor() == 0,
    {
        Parser { tokens, pos: 0 }
    }

    /// Parses a whole program: top-level declarations until the end-of-input
    /// token, exactly as `sp_program` describes.
    pub fn parse_program(&mut self) -> (r: Result<Program, ParseError>)
        requires
            old(self).wf(),
        ensures
            final(self).wf(),
            final(self).toks() == old(self).toks(),
            match r {
                Ok(pr) => sp_program(old(self).toks(), old(self).cursor()) == Ok::<
                    (ProgramV, int),
                    ParseErrorV,
                >((pr@, final(self).cursor())),
                Err(e) => sp_program(old(self).toks(), old(self).cursor()) == Err::<
                    (ProgramV, int),
                    ParseErrorV,
                >(e@),
            },
    {
        match parse_program_at(&self.tokens, self.pos) {
            Err(e) => Err(e),
            Ok((pr, q)) => {
                self.pos = q;
                Ok(pr)
            },
        }
    }
}

/// Parses a whole token sequence into a program, exactly as
/// `sp_parse_tokens` describes; identical token sequences always yield the
/// identical tree or the identical fatal error.
pub fn parse_tokens(tokens: Vec<TokenKind>) -> (r: Result<Program, ParseError>)
    ensures
        match r {
            Ok(pr) => sp_parse_tokens(tokens_view(tokens@)) == Ok::<ProgramV, ParseErrorV>(pr@),
            Err(e) => sp_parse_tokens(tokens_view(tokens@)) == Err::<ProgramV, ParseErrorV>(e@),
        },
{
    let mut parser = Parser::new(tokens);
    parser.parse_program()
}

} // verus!
