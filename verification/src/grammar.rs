//! The grammar of the Butter language, as specification functions.
//!
//! One `sp_*` function per grammar level mirrors the single-token-lookahead
//! recursive descent of the parser: each takes the token sequence and a
//! cursor position and yields either the parsed model value with the cursor
//! just after it, or the first fatal parse error.  The executable parser is
//! proved to compute exactly these functions.
//!
//! Termination rests on a lexicographic measure: the number of tokens left,
//! then a fixed rank per grammar level.  Cursor positions fed to recursive
//! calls are pinned into range with `clamp_pos`; the executable parser shows
//! that the pin never changes a value.

use vstd::prelude::*;
use crate::token::TokenV;
use crate::ast::ExprV;
use crate::ast::StmtV;
use crate::ast::TypeV;
use crate::ast::BlockOrIfV;
use crate::ast::ProgramV;
use crate::ast::ParseErrorV;
use crate::ast::PrefixOp;
use crate::ast::InfixOp;
use crate::lexer::clamp_pos;

verus! {

/// The token under a cursor: the end-of-input token when the cursor is
/// outside the sequence, as with a cursor that has stopped on the sentinel.
pub open spec fn tok_at(toks: Seq<TokenV>, p: int) -> TokenV {
    if 0 <= p && p < toks.len() {
        toks[p]
    } else {
        TokenV::Eof
    }
}

/// Demands one specific token: on a match the cursor passes it, otherwise
/// the parse fails, naming the expected and found tokens and a context.
pub open spec fn sp_expect(toks: Seq<TokenV>, p: int, k: TokenV, ctx: Seq<char>) -> Result<
    int,
    ParseErrorV,
> {
    if tok_at(toks, p) == k {
        Ok(
            if k == TokenV::Eof {
                p
            } else {
                p + 1
            },
        )
    } else {
        Err(ParseErrorV::UnexpectedToken { expected: k, found: tok_at(toks, p), context: ctx })
    }
}

/// Demands an identifier token and yields its text.
pub open spec fn sp_take_ident(toks: Seq<TokenV>, p: int, ctx: Seq<char>) -> Result<
    (Seq<char>, int),
    ParseErrorV,
> {
    match tok_at(toks, p) {
        TokenV::Ident(s) => Ok((s, p + 1)),
        other => Err(ParseErrorV::ExpectedIdent { found: other, context: ctx }),
    }
}

/// A type name: a built-in primitive, `nil`, or a custom struct type name.
pub open spec fn sp_type(toks: Seq<TokenV>, p: int) -> Result<(TypeV, int), ParseErrorV> {
    match tok_at(toks, p) {
        TokenV::Ident(name) => Ok(
            (
                if name == "Int"@ {
                    TypeV::Int
                } else if name == "Float"@ {
                    TypeV::Float
                } else if name == "Bool"@ {
                    TypeV::Bool
                } else if name == "String"@ {
                    TypeV::Str
                } else {
                    TypeV::Custom(name)
                },
                p + 1,
            ),
        ),
        TokenV::KwNil => Ok((TypeV::Nil, p + 1)),
        other => Err(ParseErrorV::ExpectedType { found: other }),
    }
}

/// A primary expression: a literal, an identifier, a struct literal when an
/// identifier is directly followed by `{` and struct literals are allowed in
/// this position, or a parenthesized group.
pub open spec fn sp_primary(toks: Seq<TokenV>, p: int, allow_struct: bool) -> Result<
    (ExprV, int),
    ParseErrorV,
>
    decreases toks.len() - p, 1int,
{
    match tok_at(toks, p) {
        TokenV::IntLiteral(v) => Ok((ExprV::Int(v), p + 1)),
        TokenV::FloatLiteral(s) => Ok((ExprV::Float(s), p + 1)),
        TokenV::StringLiteral(s) => Ok((ExprV::Str(s), p + 1)),
        TokenV::KwTrue => Ok((ExprV::Bool(true), p + 1)),
        TokenV::KwFalse => Ok((ExprV::Bool(false), p + 1)),
        TokenV::KwNil => Ok((ExprV::Nil, p + 1)),
        TokenV::Ident(name) => {
            if allow_struct && tok_at(toks, p + 1) == TokenV::LBrace {
                match sp_lit_fields(toks, Seq::empty(), p + 2) {
                    Err(e) => Err(e),
                    Ok((fields, q)) => match sp_expect(
                        toks,
                        q,
                        TokenV::RBrace,
                        "expected '}' after struct literal"@,
                    ) {
                        Err(e) => Err(e),
                        Ok(q2) => Ok((ExprV::StructLiteral { name, fields }, q2)),
                    },
                }
            } else {
                Ok((ExprV::Ident(name), p + 1))
            }
        },
        TokenV::LParen => match sp_expr(toks, p + 1, true) {
            Err(e) => Err(e),
            Ok((inner, q)) => match sp_expect(
                toks,
                q,
                TokenV::RParen,
                "expected ')' after expression"@,
            ) {
                Err(e) => Err(e),
                Ok(q2) => Ok((ExprV::Group(Box::new(inner)), q2)),
            },
        },
        other => Err(ParseErrorV::UnexpectedPrimary { found: other }),
    }
}

/// The field list of a struct literal: `name = expr` pairs separated by
/// commas, ending before `}` or the end of input.
pub open spec fn sp_lit_fields(
    toks: Seq<TokenV>,
    acc: Seq<(Seq<char>, ExprV)>,
    p: int,
) -> Result<(Seq<(Seq<char>, ExprV)>, int), ParseErrorV>
    decreases toks.len() - p, 19int,
{
    if tok_at(toks, p) == TokenV::RBrace || tok_at(toks, p) == TokenV::Eof {
        Ok((acc, p))
    } else {
        match sp_take_ident(toks, p, "field name in struct literal"@) {
            Err(e) => Err(e),
            Ok((nm, p1)) => match sp_expect(
                toks,
                p1,
                TokenV::Equal,
                "expected '=' after field name"@,
            ) {
                Err(e) => Err(e),
                Ok(p2) => match sp_expr(toks, p2, true) {
                    Err(e) => Err(e),
                    Ok((v, q)) => {
                        if tok_at(toks, q) == TokenV::Comma {
                            sp_lit_fields(
                                toks,
                                acc.push((nm, v)),
                                clamp_pos(q + 1, p + 1, toks.len() as int),
                            )
                        } else {
                            Ok((acc.push((nm, v)), q))
                        }
                    },
                },
            },
        }
    }
}

/// The argument list of a call, after its `(`: expressions separated by
/// commas.  Entered only when the next token is not `)`.
pub open spec fn sp_args(toks: Seq<TokenV>, acc: Seq<ExprV>, p: int) -> Result<
    (Seq<ExprV>, int),
    ParseErrorV,
>
    decreases toks.len() - p, 19int,
{
    match sp_expr(toks, p, true) {
        Err(e) => Err(e),
        Ok((e0, q)) => {
            if tok_at(toks, q) == TokenV::Comma && p < toks.len() {
                sp_args(toks, acc.push(e0), clamp_pos(q + 1, p + 1, toks.len() as int))
            } else {
                Ok((acc.push(e0), q))
            }
        },
    }
}

/// The postfix chain on a primary: zero or more calls, index accesses and
/// field accesses, applied left to right, each rebinding the running
/// expression as the new base.
pub open spec fn sp_postfix(toks: Seq<TokenV>, cur: ExprV, p: int) -> Result<
    (ExprV, int),
    ParseErrorV,
>
    decreases toks.len() - p, 2int,
{
    if tok_at(toks, p) == TokenV::LParen {
        let args_r = if tok_at(toks, p + 1) == TokenV::RParen {
            Ok((Seq::<ExprV>::empty(), p + 1))
        } else {
            sp_args(toks, Seq::empty(), p + 1)
        };
        match args_r {
            Err(e) => Err(e),
            Ok((args, q)) => match sp_expect(
                toks,
                q,
                TokenV::RParen,
                "expected ')' after arguments"@,
            ) {
                Err(e) => Err(e),
                Ok(q2) => sp_postfix(
                    toks,
                    ExprV::Call { callee: Box::new(cur), args },
                    clamp_pos(q2, p + 1, toks.len() as int),
                ),
            },
        }
    } else if tok_at(toks, p) == TokenV::LBracket {
        match sp_expr(toks, p + 1, true) {
            Err(e) => Err(e),
            Ok((ix, q)) => match sp_expect(
                toks,
                q,
                TokenV::RBracket,
                "expected ']' after index"@,
            ) {
                Err(e) => Err(e),
                Ok(q2) => sp_postfix(
                    toks,
                    ExprV::Index { target: Box::new(cur), index: Box::new(ix) },
                    clamp_pos(q2, p + 1, toks.len() as int),
                ),
            },
        }
    } else if tok_at(toks, p) == TokenV::Dot {
        match sp_take_ident(toks, p + 1, "field name after '.'"@) {
            Err(e) => Err(e),
            Ok((f, q)) => sp_postfix(
                toks,
                ExprV::FieldAccess { target: Box::new(cur), field: f },
                clamp_pos(q, p + 1, toks.len() as int),
            ),
        }
    } else {
        Ok((cur, p))
    }
}

/// A primary expression together with its postfix chain.
pub open spec fn sp_call(toks: Seq<TokenV>, p: int, allow_struct: bool) -> Result<
    (ExprV, int),
    ParseErrorV,
>
    decreases toks.len() - p, 3int,
{
    match sp_primary(toks, p, allow_struct) {
        Err(e) => Err(e),
        Ok((e0, q)) => sp_postfix(toks, e0, clamp_pos(q, p, toks.len() as int)),
    }
}

/// A unary prefix expression: `!` and `-` are right-associative and bind
/// tighter than any binary operator.
pub open spec fn sp_unary(toks: Seq<TokenV>, p: int, allow_struct: bool) -> Result<
    (ExprV, int),
    ParseErrorV,
>
    decreases toks.len() - p, 4int,
{
    if tok_at(toks, p) == TokenV::Bang {
        match sp_unary(toks, p + 1, allow_struct) {
            Err(e) => Err(e),
            Ok((r, q)) => Ok((ExprV::Prefix { op: PrefixOp::Not, rhs: Box::new(r) }, q)),
        }
    } else if tok_at(toks, p) == TokenV::Minus {
        match sp_unary(toks, p + 1, allow_struct) {
            Err(e) => Err(e),
            Ok((r, q)) => Ok((ExprV::Prefix { op: PrefixOp::Neg, rhs: Box::new(r) }, q)),
        }
    } else {
        sp_call(toks, p, allow_struct)
    }
}

/// The multiplicative operator under a cursor, if any.
pub open spec fn factor_op(t: TokenV) -> Option<InfixOp> {
    if t == TokenV::Star {
        Some(InfixOp::Mul)
    } else if t == TokenV::Slash {
        Some(InfixOp::Div)
    } else if t == TokenV::Percent {
        Some(InfixOp::Mod)
    } else {
        None
    }
}

/// Left-associative continuation of a multiplicative expression.
pub open spec fn sp_factor_tail(
    toks: Seq<TokenV>,
    cur: ExprV,
    p: int,
    allow_struct: bool,
) -> Result<(ExprV, int), ParseErrorV>
    decreases toks.len() - p, 5int,
{
    match factor_op(tok_at(toks, p)) {
        None => Ok((cur, p)),
        Some(o) => match sp_unary(toks, p + 1, allow_struct) {
            Err(e) => Err(e),
            Ok((r, q)) => sp_factor_tail(
                toks,
                ExprV::Infix { op: o, lhs: Box::new(cur), rhs: Box::new(r) },
                clamp_pos(q, p + 1, toks.len() as int),
                allow_struct,
            ),
        },
    }
}

/// A multiplicative expression: `*`, `/`, `%`, left-associative.
pub open spec fn sp_factor(toks: Seq<TokenV>, p: int, allow_struct: bool) -> Result<
    (ExprV, int),
    ParseErrorV,
>
    decreases toks.len() - p, 6int,
{
    match sp_unary(toks, p, allow_struct) {
        Err(e) => Err(e),
        Ok((e0, q)) => sp_factor_tail(toks, e0, clamp_pos(q, p, toks.len() as int), allow_struct),
    }
}

/// The additive operator under a cursor, if any.
pub open spec fn term_op(t: TokenV) -> Option<InfixOp> {
    if t == TokenV::Plus {
        Some(InfixOp::Add)
    } else if t == TokenV::Minus {
        Some(InfixOp::Sub)
    } else {
        None
    }
}

/// Left-associative continuation of an additive expression.
pub open spec fn sp_term_tail(toks: Seq<TokenV>, cur: ExprV, p: int, allow_struct: bool) -> Result<
    (ExprV, int),
    ParseErrorV,
>
    decreases toks.len() - p, 7int,
{
    match term_op(tok_at(toks, p)) {
        None => Ok((cur, p)),
        Some(o) => match sp_factor(toks, p + 1, allow_struct) {
            Err(e) => Err(e),
            Ok((r, q)) => sp_term_tail(
                toks,
                ExprV::Infix { op: o, lhs: Box::new(cur), rhs: Box::new(r) },
                clamp_pos(q, p + 1, toks.len() as int),
                allow_struct,
            ),
        },
    }
}

/// An additive expression: `+`, `-`, left-associative.
pub open spec fn sp_term(toks: Seq<TokenV>, p: int, allow_struct: bool) -> Result<
    (ExprV, int),
    ParseErrorV,
>
    decreases toks.len() - p, 8int,
{
    match sp_factor(toks, p, allow_struct) {
        Err(e) => Err(e),
        Ok((e0, q)) => sp_term_tail(toks, e0, clamp_pos(q, p, toks.len() as int), allow_struct),
    }
}

/// The relational operator under a cursor, if any.
pub open spec fn cmp_op(t: TokenV) -> Option<InfixOp> {
    if t == TokenV::Less {
        Some(InfixOp::Lt)
    } else if t == TokenV::LessEq {
        Some(InfixOp::Le)
    } else if t == TokenV::Greater {
        Some(InfixOp::Gt)
    } else if t == TokenV::GreaterEq {
        Some(InfixOp::Ge)
    } else {
        None
    }
}

/// Left-associative continuation of a relational expression.
pub open spec fn sp_cmp_tail(toks: Seq<TokenV>, cur: ExprV, p: int, allow_struct: bool) -> Result<
    (ExprV, int),
    ParseErrorV,
>
    decreases toks.len() - p, 9int,
{
    match cmp_op(tok_at(toks, p)) {
        None => Ok((cur, p)),
        Some(o) => match sp_term(toks, p + 1, allow_struct) {
            Err(e) => Err(e),
            Ok((r, q)) => sp_cmp_tail(
                toks,
                ExprV::Infix { op: o, lhs: Box::new(cur), rhs: Box::new(r) },
                clamp_pos(q, p + 1, toks.len() as int),
                allow_struct,
            ),
        },
    }
}

/// A relational expression: `<`, `<=`, `>`, `>=`, left-associative.
pub open spec fn sp_comparison(toks: Seq<TokenV>, p: int, allow_struct: bool) -> Result<
    (ExprV, int),
    ParseErrorV,
>
    decreases toks.len() - p, 10int,
{
    match sp_term(toks, p, allow_struct) {
        Err(e) => Err(e),
        Ok((e0, q)) => sp_cmp_tail(toks, e0, clamp_pos(q, p, toks.len() as int), allow_struct),
    }
}

/// The equality operator under a cursor, if any.
pub open spec fn eq_op(t: TokenV) -> Option<InfixOp> {
    if t == TokenV::EqEq {
        Some(InfixOp::Eq)
    } else if t == TokenV::BangEq {
        Some(InfixOp::Ne)
    } else {
        None
    }
}

/// Left-associative continuation of an equality expression.
pub open spec fn sp_eq_tail(toks: Seq<TokenV>, cur: ExprV, p: int, allow_struct: bool) -> Result<
    (ExprV, int),
    ParseErrorV,
>
    decreases toks.len() - p, 11int,
{
    match eq_op(tok_at(toks, p)) {
        None => Ok((cur, p)),
        Some(o) => match sp_comparison(toks, p + 1, allow_struct) {
            Err(e) => Err(e),
            Ok((r, q)) => sp_eq_tail(
                toks,
                ExprV::Infix { op: o, lhs: Box::new(cur), rhs: Box::new(r) },
                clamp_pos(q, p + 1, toks.len() as int),
                allow_struct,
            ),
        },
    }
}

/// An equality expression: `==`, `!=`, left-associative.
pub open spec fn sp_equality(toks: Seq<TokenV>, p: int, allow_struct: bool) -> Result<
    (ExprV, int),
    ParseErrorV,
>
    decreases toks.len() - p, 12int,
{
    match sp_comparison(toks, p, allow_struct) {
        Err(e) => Err(e),
        Ok((e0, q)) => sp_eq_tail(toks, e0, clamp_pos(q, p, toks.len() as int), allow_struct),
    }
}

/// Left-associative continuation of a logical-and expression.
pub open spec fn sp_and_tail(toks: Seq<TokenV>, cur: ExprV, p: int, allow_struct: bool) -> Result<
    (ExprV, int),
    ParseErrorV,
>
    decreases toks.len() - p, 13int,
{
    if tok_at(toks, p) == TokenV::AndAnd {
        match sp_equality(toks, p + 1, allow_struct) {
            Err(e) => Err(e),
            Ok((r, q)) => sp_and_tail(
                toks,
                ExprV::Infix { op: InfixOp::And, lhs: Box::new(cur), rhs: Box::new(r) },
                clamp_pos(q, p + 1, toks.len() as int),
                allow_struct,
            ),
        }
    } else {
        Ok((cur, p))
    }
}

/// A logical-and expression: `&&`, left-associative.
pub open spec fn sp_and(toks: Seq<TokenV>, p: int, allow_struct: bool) -> Result<
    (ExprV, int),
    ParseErrorV,
>
    decreases toks.len() - p, 14int,
{
    match sp_equality(toks, p, allow_struct) {
        Err(e) => Err(e),
        Ok((e0, q)) => sp_and_tail(toks, e0, clamp_pos(q, p, toks.len() as int), allow_struct),
    }
}

/// Left-associative continuation of a logical-or expression.
pub open spec fn sp_or_tail(toks: Seq<TokenV>, cur: ExprV, p: int, allow_struct: bool) -> Result<
    (ExprV, int),
    ParseErrorV,
>
    decreases toks.len() - p, 15int,
{
    if tok_at(toks, p) == TokenV::OrOr {
        match sp_and(toks, p + 1, allow_struct) {
            Err(e) => Err(e),
            Ok((r, q)) => sp_or_tail(
                toks,
                ExprV::Infix { op: InfixOp::Or, lhs: Box::new(cur), rhs: Box::new(r) },
                clamp_pos(q, p + 1, toks.len() as int),
                allow_struct,
            ),
        }
    } else {
        Ok((cur, p))
    }
}

/// A logical-or expression: `||`, left-associative.
pub open spec fn sp_or(toks: Seq<TokenV>, p: int, allow_struct: bool) -> Result<
    (ExprV, int),
    ParseErrorV,
>
    decreases toks.len() - p, 16int,
{
    match sp_and(toks, p, allow_struct) {
        Err(e) => Err(e),
        Ok((e0, q)) => sp_or_tail(toks, e0, clamp_pos(q, p, toks.len() as int), allow_struct),
    }
}

/// The assignment operator under a cursor, if any.
pub open spec fn assign_op(t: TokenV) -> Option<InfixOp> {
    if t == TokenV::Equal {
        Some(InfixOp::Assign)
    } else if t == TokenV::PlusEqual {
        Some(InfixOp::AddAssign)
    } else if t == TokenV::MinusEqual {
        Some(InfixOp::SubAssign)
    } else if t == TokenV::StarEqual {
        Some(InfixOp::MulAssign)
    } else if t == TokenV::SlashEqual {
        Some(InfixOp::DivAssign)
    } else {
        None
    }
}

/// An assignment expression: the assignment family is right-associative, so
/// the right-hand side is itself an assignment expression.
pub open spec fn sp_assignment(toks: Seq<TokenV>, p: int, allow_struct: bool) -> Result<
    (ExprV, int),
    ParseErrorV,
>
    decreases toks.len() - p, 17int,
{
    match sp_or(toks, p, allow_struct) {
        Err(e) => Err(e),
        Ok((lhs, q)) => match assign_op(tok_at(toks, q)) {
            None => Ok((lhs, q)),
            Some(o) => {
                if p < toks.len() {
                    match sp_assignment(
                        toks,
                        clamp_pos(q + 1, p + 1, toks.len() as int),
                        allow_struct,
                    ) {
                        Err(e) => Err(e),
                        Ok((rhs, q2)) => Ok(
                            (ExprV::Infix { op: o, lhs: Box::new(lhs), rhs: Box::new(rhs) }, q2),
                        ),
                    }
                } else {
                    // An expression never parses from beyond the end of the
                    // tokens, so this branch is unreachable.
                    Ok((lhs, q))
                }
            },
        },
    }
}

/// A whole expression: the assignment level.
#[verifier::opaque]
pub open spec fn sp_expr(toks: Seq<TokenV>, p: int, allow_struct: bool) -> Result<
    (ExprV, int),
    ParseErrorV,
>
    decreases toks.len() - p, 18int,
{
    sp_assignment(toks, p, allow_struct)
}

/// The field list of a struct declaration: `name : type` pairs separated by
/// commas, ending before `}` or the end of input.
pub open spec fn sp_sfields(
    toks: Seq<TokenV>,
    acc: Seq<(Seq<char>, TypeV)>,
    p: int,
) -> Result<(Seq<(Seq<char>, TypeV)>, int), ParseErrorV>
    decreases toks.len() - p, 19int,
{
    if tok_at(toks, p) == TokenV::RBrace || tok_at(toks, p) == TokenV::Eof {
        Ok((acc, p))
    } else {
        match sp_take_ident(toks, p, "field name"@) {
            Err(e) => Err(e),
            Ok((nm, p1)) => match sp_expect(
                toks,
                p1,
                TokenV::Colon,
                "expected ':' after field name"@,
            ) {
                Err(e) => Err(e),
                Ok(p2) => match sp_type(toks, p2) {
                    Err(e) => Err(e),
                    Ok((ty, p3)) => {
                        if tok_at(toks, p3) == TokenV::Comma {
                            sp_sfields(
                                toks,
                                acc.push((nm, ty)),
                                clamp_pos(p3 + 1, p + 1, toks.len() as int),
                            )
                        } else {
                            Ok((acc.push((nm, ty)), p3))
                        }
                    },
                },
            },
        }
    }
}

/// The parameter list of a function declaration: `name : type` pairs
/// separated by commas.  Entered only when the next token is not `)`; a
/// comma always announces one more parameter.
pub open spec fn sp_params(
    toks: Seq<TokenV>,
    acc: Seq<(Seq<char>, TypeV)>,
    p: int,
) -> Result<(Seq<(Seq<char>, TypeV)>, int), ParseErrorV>
    decreases toks.len() - p, 19int,
{
    match sp_take_ident(toks, p, "parameter name"@) {
        Err(e) => Err(e),
        Ok((nm, p1)) => match sp_expect(
            toks,
            p1,
            TokenV::Colon,
            "expected ':' after parameter name"@,
        ) {
            Err(e) => Err(e),
            Ok(p2) => match sp_type(toks, p2) {
                Err(e) => Err(e),
                Ok((ty, p3)) => {
                    if tok_at(toks, p3) == TokenV::Comma && p < toks.len() {
                        sp_params(
                            toks,
                            acc.push((nm, ty)),
                            clamp_pos(p3 + 1, p + 1, toks.len() as int),
                        )
                    } else {
                        Ok((acc.push((nm, ty)), p3))
                    }
                },
            },
        },
    }
}

/// The statements of a block, up to its closing `}` or the end of input.
pub open spec fn sp_block_tail(toks: Seq<TokenV>, acc: Seq<StmtV>, p: int) -> Result<
    (Seq<StmtV>, int),
    ParseErrorV,
>
    decreases toks.len() - p, 26int,
{
    if tok_at(toks, p) == TokenV::RBrace || tok_at(toks, p) == TokenV::Eof {
        Ok((acc, p))
    } else {
        match sp_decl(toks, p) {
            Err(e) => Err(e),
            Ok((s0, q)) => sp_block_tail(
                toks,
                acc.push(s0),
                clamp_pos(q, p + 1, toks.len() as int),
            ),
        }
    }
}

/// A braced block of declarations and statements.
pub open spec fn sp_block(toks: Seq<TokenV>, p: int) -> Result<(Seq<StmtV>, int), ParseErrorV>
    decreases toks.len() - p, 21int,
{
    match sp_expect(toks, p, TokenV::LBrace, "expected '{' to start block"@) {
        Err(e) => Err(e),
        Ok(p1) => match sp_block_tail(toks, Seq::empty(), p1) {
            Err(e) => Err(e),
            Ok((ss, q)) => match sp_expect(toks, q, TokenV::RBrace, "expected '}' to end block"@) {
                Err(e) => Err(e),
                Ok(q2) => Ok((ss, q2)),
            },
        },
    }
}

/// A while loop: `while expr block`, with struct literals not allowed in
/// the bare condition so that its block is not taken for one.
#[verifier::rlimit(100)]
pub open spec fn sp_while(toks: Seq<TokenV>, p: int) -> Result<(StmtV, int), ParseErrorV>
    decreases toks.len() - p, 22int,
{
    match sp_expect(toks, p, TokenV::KwWhile, "expected 'while'"@) {
        Err(e) => Err(e),
        Ok(p1) => match sp_expr(toks, p1, false) {
            Err(e) => Err(e),
            Ok((cond, q)) => match sp_block(toks, clamp_pos(q, p, toks.len() as int)) {
                Err(e) => Err(e),
                Ok((body, q2)) => Ok((StmtV::While { cond, body }, q2)),
            },
        },
    }
}

/// An if statement: `if expr block`, an optional else branch that is either
/// a block or a nested if, modeling `else if` chains by recursion.  Struct
/// literals are not allowed in the bare condition.
pub open spec fn sp_if(toks: Seq<TokenV>, p: int) -> Result<(StmtV, int), ParseErrorV>
    decreases toks.len() - p, 22int,
{
    match sp_expect(toks, p, TokenV::KwIf, "expected 'if'"@) {
        Err(e) => Err(e),
        Ok(p1) => match sp_expr(toks, p1, false) {
            Err(e) => Err(e),
            Ok((cond, q1raw)) => {
                let q1 = clamp_pos(q1raw, p1, toks.len() as int);
                match sp_block(toks, q1) {
                    Err(e) => Err(e),
                    Ok((thenb, q2raw)) => {
                        let q2 = clamp_pos(q2raw, q1, toks.len() as int);
                        if tok_at(toks, q2) == TokenV::KwElse {
                            if tok_at(toks, q2 + 1) == TokenV::KwIf {
                                match sp_if(toks, q2 + 1) {
                                    Err(e) => Err(e),
                                    Ok((nested, q3)) => Ok(
                                        (
                                            StmtV::If {
                                                cond,
                                                then_branch: thenb,
                                                else_branch: Some(
                                                    BlockOrIfV::If(Box::new(nested)),
                                                ),
                                            },
                                            q3,
                                        ),
                                    ),
                                }
                            } else {
                                match sp_block(toks, q2 + 1) {
                                    Err(e) => Err(e),
                                    Ok((eb, q3)) => Ok(
                                        (
                                            StmtV::If {
                                                cond,
                                                then_branch: thenb,
                                                else_branch: Some(BlockOrIfV::Block(eb)),
                                            },
                                            q3,
                                        ),
                                    ),
                                }
                            }
                        } else {
                            Ok((StmtV::If { cond, then_branch: thenb, else_branch: None }, q2))
                        }
                    },
                }
            },
        },
    }
}

/// A variable declaration: `let`/`const`, an optional `mut`, a name, `:`, a
/// declared type, an optional `= expr` initializer, and `;`.  A `const`
/// forces the binding non-mutable.
#[verifier::rlimit(100)]
pub open spec fn sp_let(toks: Seq<TokenV>, p: int) -> Result<(StmtV, int), ParseErrorV>
    decreases toks.len() - p, 22int,
{
    let is_const = tok_at(toks, p) == TokenV::KwConst;
    let after_kw = if is_const {
        Ok(p + 1)
    } else {
        sp_expect(toks, p, TokenV::KwLet, "expected 'let' or 'const'"@)
    };
    match after_kw {
        Err(e) => Err(e),
        Ok(p1) => {
            let has_mut = tok_at(toks, p1) == TokenV::KwMut;
            let p2 = if has_mut {
                p1 + 1
            } else {
                p1
            };
            match sp_take_ident(toks, p2, "variable name"@) {
                Err(e) => Err(e),
                Ok((name, p3)) => match sp_expect(
                    toks,
                    p3,
                    TokenV::Colon,
                    "expected ':' after variable name"@,
                ) {
                    Err(e) => Err(e),
                    Ok(p4) => match sp_type(toks, p4) {
                        Err(e) => Err(e),
                        Ok((vt, p5)) => {
                            let init = if tok_at(toks, p5) == TokenV::Equal {
                                match sp_expr(toks, p5 + 1, true) {
                                    Err(e) => Err(e),
                                    Ok((v, q)) => Ok((Some(v), q)),
                                }
                            } else {
                                Ok((None::<ExprV>, p5))
                            };
                            match init {
                                Err(e) => Err(e),
                                Ok((value, q)) => match sp_expect(
                                    toks,
                                    q,
                                    TokenV::Semicolon,
                                    "expected ';' after let/const"@,
                                ) {
                                    Err(e) => Err(e),
                                    Ok(q2) => Ok(
                                        (
                                            StmtV::Let {
                                                name,
                                                mutable: if is_const {
                                                    false
                                                } else {
                                                    has_mut
                                                },
                                                valuetype: vt,
                                                value,
                                            },
                                            q2,
                                        ),
                                    ),
                                },
                            }
                        },
                    },
                },
            }
        },
    }
}

/// A function declaration: `fn name ( params ) => type block`.
pub open spec fn sp_func(toks: Seq<TokenV>, p: int) -> Result<(StmtV, int), ParseErrorV>
    decreases toks.len() - p, 22int,
{
    match sp_expect(toks, p, TokenV::KwFn, "expected 'fn'"@) {
        Err(e) => Err(e),
        Ok(p1) => match sp_take_ident(toks, p1, "function name"@) {
            Err(e) => Err(e),
            Ok((name, p2)) => match sp_expect(
                toks,
                p2,
                TokenV::LParen,
                "expected '(' after function name"@,
            ) {
                Err(e) => Err(e),
                Ok(p3) => {
                    let params_r = if tok_at(toks, p3) == TokenV::RParen {
                        Ok((Seq::<(Seq<char>, TypeV)>::empty(), p3))
                    } else {
                        sp_params(toks, Seq::empty(), p3)
                    };
                    match params_r {
                        Err(e) => Err(e),
                        Ok((params, q)) => match sp_expect(
                            toks,
                            q,
                            TokenV::RParen,
                            "expected ')' after parameters"@,
                        ) {
                            Err(e) => Err(e),
                            Ok(q1) => match sp_expect(
                                toks,
                                q1,
                                TokenV::FatArrow,
                                "expected '=>' after function parameters"@,
                            ) {
                                Err(e) => Err(e),
                                Ok(q2) => match sp_type(toks, q2) {
                                    Err(e) => Err(e),
                                    Ok((rt, q3)) => match sp_block(
                                        toks,
                                        clamp_pos(q3, p, toks.len() as int),
                                    ) {
                                        Err(e) => Err(e),
                                        Ok((body, q4)) => Ok(
                                            (
                                                StmtV::Func {
                                                    name,
                                                    params,
                                                    returntype: rt,
                                                    body,
                                                },
                                                q4,
                                            ),
                                        ),
                                    },
                                },
                            },
                        },
                    }
                },
            },
        },
    }
}

/// A struct type declaration: `struct name { fields }`.
pub open spec fn sp_struct(toks: Seq<TokenV>, p: int) -> Result<(StmtV, int), ParseErrorV>
    decreases toks.len() - p, 22int,
{
    match sp_expect(toks, p, TokenV::KwStruct, "expected 'struct'"@) {
        Err(e) => Err(e),
        Ok(p1) => match sp_take_ident(toks, p1, "struct name"@) {
            Err(e) => Err(e),
            Ok((name, p2)) => match sp_expect(
                toks,
                p2,
                TokenV::LBrace,
                "expected '{' after struct name"@,
            ) {
                Err(e) => Err(e),
                Ok(p3) => match sp_sfields(toks, Seq::empty(), p3) {
                    Err(e) => Err(e),
                    Ok((fields, q)) => match sp_expect(
                        toks,
                        q,
                        TokenV::RBrace,
                        "expected '}' to end a struct"@,
                    ) {
                        Err(e) => Err(e),
                        Ok(q2) => Ok((StmtV::Struct { name, fields }, q2)),
                    },
                },
            },
        },
    }
}

/// A statement: return, while, if, a bare block, `out`, `skip`, or a
/// fallback expression statement ended by `;`.
pub open spec fn sp_stmt(toks: Seq<TokenV>, p: int) -> Result<(StmtV, int), ParseErrorV>
    decreases toks.len() - p, 24int,
{
    match tok_at(toks, p) {
        TokenV::KwReturn => {
            if tok_at(toks, p + 1) == TokenV::Semicolon {
                Ok((StmtV::Return(None), p + 2))
            } else {
                match sp_expr(toks, p + 1, true) {
                    Err(e) => Err(e),
                    Ok((v, q)) => match sp_expect(
                        toks,
                        q,
                        TokenV::Semicolon,
                        "expected ';' after return expression"@,
                    ) {
                        Err(e) => Err(e),
                        Ok(q2) => Ok((StmtV::Return(Some(v)), q2)),
                    },
                }
            }
        },
        TokenV::KwWhile => sp_while(toks, p),
        TokenV::KwIf => sp_if(toks, p),
        TokenV::LBrace => match sp_block(toks, p) {
            Err(e) => Err(e),
            Ok((b, q)) => Ok((StmtV::Block(b), q)),
        },
        TokenV::KwOut => match sp_expect(
            toks,
            p + 1,
            TokenV::Semicolon,
            "expected ';' after 'out'"@,
        ) {
            Err(e) => Err(e),
            Ok(q) => Ok((StmtV::Out, q)),
        },
        TokenV::KwSkip => match sp_expect(
            toks,
            p + 1,
            TokenV::Semicolon,
            "expected ';' after 'skip'"@,
        ) {
            Err(e) => Err(e),
            Ok(q) => Ok((StmtV::Skip, q)),
        },
        _ => match sp_expr(toks, p, true) {
            Err(e) => Err(e),
            Ok((v, q)) => match sp_expect(
                toks,
                q,
                TokenV::Semicolon,
                "expected ';' after expression"@,
            ) {
                Err(e) => Err(e),
                Ok(q2) => Ok((StmtV::ExprStmt(v), q2)),
            },
        },
    }
}

/// A top-level declaration: a function, variable or struct declaration, or
/// any statement.
pub open spec fn sp_decl(toks: Seq<TokenV>, p: int) -> Result<(StmtV, int), ParseErrorV>
    decreases toks.len() - p, 25int,
{
    match tok_at(toks, p) {
        TokenV::KwFn => sp_func(toks, p),
        TokenV::KwLet => sp_let(toks, p),
        TokenV::KwConst => sp_let(toks, p),
        TokenV::KwStruct => sp_struct(toks, p),
        _ => sp_stmt(toks, p),
    }
}

/// The top-level declarations of a program, up to the end-of-input token.
pub open spec fn sp_program_tail(toks: Seq<TokenV>, acc: Seq<StmtV>, p: int) -> Result<
    (Seq<StmtV>, int),
    ParseErrorV,
>
    decreases toks.len() - p, 27int,
{
    if tok_at(toks, p) == TokenV::Eof {
        Ok((acc, p))
    } else {
        match sp_decl(toks, p) {
            Err(e) => Err(e),
            Ok((s0, q)) => sp_program_tail(
                toks,
                acc.push(s0),
                clamp_pos(q, p + 1, toks.len() as int),
            ),
        }
    }
}

/// A whole program: declarations until the end-of-input token.
pub open spec fn sp_program(toks: Seq<TokenV>, p: int) -> Result<(ProgramV, int), ParseErrorV>
    decreases toks.len() - p, 28int,
{
    match sp_program_tail(toks, Seq::empty(), p) {
        Err(e) => Err(e),
        Ok((ss, q)) => Ok((ProgramV { stmts: ss }, q)),
    }
}

/// The parse of a whole token sequence, from its first token.
pub open spec fn sp_parse_tokens(toks: Seq<TokenV>) -> Result<ProgramV, ParseErrorV> {
    match sp_program(toks, 0) {
        Err(e) => Err(e),
        Ok((pr, _)) => Ok(pr),
    }
}

/// The one-step unfolding of `sp_expr`, whose definition is kept opaque to
/// keep the callers' queries small.
pub proof fn lemma_sp_expr_body(toks: Seq<TokenV>, p: int, allow_struct: bool)
    ensures
        sp_expr(toks, p, allow_struct) == sp_assignment(toks, p, allow_struct),
{
    reveal(sp_expr);
}

} // verus!
