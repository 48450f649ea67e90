//! Abstract syntax tree of the Butter language, its spec-level model, and
//! the two fatal error kinds of the front end.
//!
//! Every executable tree type has a ghost mirror (`ExprV`, `StmtV`, ...) in
//! which text is a `Seq<char>` and lists are `Seq`s; the `*_view` functions
//! map a tree to its mirror.  Contracts throughout the crate are stated over
//! the mirrors, so a parse result is pinned down as a mathematical value.

use vstd::prelude::*;
use crate::token::TokenKind;
use crate::token::TokenV;

verus! {

/// A prefix operator: arithmetic negation or logical not.
#[derive(Debug, Clone, Copy, PartialEq, Eq, Structural)]
pub enum PrefixOp {
    Neg,
    Not,
}

/// An infix operator, including the assignment family.
#[derive(Debug, Clone, Copy, PartialEq, Eq, Structural)]
pub enum InfixOp {
    Add,
    Sub,
    Mul,
    Div,
    Mod,
    Eq,
    Ne,
    Lt,
    Le,
    Gt,
    Ge,
    And,
    Or,

    Assign,
    AddAssign,
    SubAssign,
    MulAssign,
    DivAssign,
}

/// A declared type: a built-in primitive or a named struct type.
#[derive(Debug, PartialEq)]
pub enum Type {
    Int,
    Float,
    Str,
    Nil,
    Bool,
    Custom(String),
}

/// An expression tree node.  A float literal holds its lexeme text.
#[derive(Debug, PartialEq)]
pub enum Expr {
    Int(i64),
    Float(String),
    Bool(bool),
    Str(String),
    Nil,
    Ident(String),

    Prefix { op: PrefixOp, rhs: Box<Expr> },

    Infix { op: InfixOp, lhs: Box<Expr>, rhs: Box<Expr> },

    Call { callee: Box<Expr>, args: Vec<Expr> },

    Index { target: Box<Expr>, index: Box<Expr> },

    Group(Box<Expr>),

    StructLiteral { name: String, fields: Vec<(String, Expr)> },

    FieldAccess { target: Box<Expr>, field: String },
}

/// A statement tree node.
#[derive(Debug, PartialEq)]
pub enum Stmt {
    Let { name: String, mutable: bool, valuetype: Type, value: Option<Expr> },

    ExprStmt(Expr),

    Return(Option<Expr>),

    Struct { name: String, fields: Vec<(String, Type)> },

    While { cond: Expr, body: Block },

    If { cond: Expr, then_branch: Block, else_branch: Option<BlockOrIf> },

    Func { name: String, params: Vec<(String, Type)>, returntype: Type, body: Block },

    Out,

    Skip,

    Block(Block),
}

/// The else branch of an `if`: a plain block, or a nested `if` statement
/// that models an `else if` chain by recursion.
#[derive(Debug, PartialEq)]
pub enum BlockOrIf {
    Block(Block),
    If(Box<Stmt>),
}

/// An ordered statement sequence, as it appears in source.
pub type Block = Vec<Stmt>;

/// The root of a parse: the ordered top-level statements of a program.
#[derive(Debug, PartialEq)]
pub struct Program {
    pub stmts: Vec<Stmt>,
}

/// Spec-level model of `Type`.
pub ghost enum TypeV {
    Int,
    Float,
    Str,
    Nil,
    Bool,
    Custom(Seq<char>),
}

/// Spec-level model of `Expr`.
pub ghost enum ExprV {
    Int(i64),
    Float(Seq<char>),
    Bool(bool),
    Str(Seq<char>),
    Nil,
    Ident(Seq<char>),

    Prefix { op: PrefixOp, rhs: Box<ExprV> },

    Infix { op: InfixOp, lhs: Box<ExprV>, rhs: Box<ExprV> },

    Call { callee: Box<ExprV>, args: Seq<ExprV> },

    Index { target: Box<ExprV>, index: Box<ExprV> },

    Group(Box<ExprV>),

    StructLiteral { name: Seq<char>, fields: Seq<(Seq<char>, ExprV)> },

    FieldAccess { target: Box<ExprV>, field: Seq<char> },
}

/// Spec-level model of `Stmt`.
pub ghost enum StmtV {
    Let { name: Seq<char>, mutable: bool, valuetype: TypeV, value: Option<ExprV> },

    ExprStmt(ExprV),

    Return(Option<ExprV>),

    Struct { name: Seq<char>, fields: Seq<(Seq<char>, TypeV)> },

    While { cond: ExprV, body: Seq<StmtV> },

    If { cond: ExprV, then_branch: Seq<StmtV>, else_branch: Option<BlockOrIfV> },

    Func {
        name: Seq<char>,
        params: Seq<(Seq<char>, TypeV)>,
        returntype: TypeV,
        body: Seq<StmtV>,
    },

    Out,

    Skip,

    Block(Seq<StmtV>),
}

/// Spec-level model of `BlockOrIf`.
pub ghost enum BlockOrIfV {
    Block(Seq<StmtV>),
    If(Box<StmtV>),
}

/// Spec-level model of `Program`.
pub ghost struct ProgramV {
    pub stmts: Seq<StmtV>,
}

/// Model of a declared type.
pub open spec fn type_view(t: Type) -> TypeV {
    match t {
        Type::Int => TypeV::Int,
        Type::Float => TypeV::Float,
        Type::Str => TypeV::Str,
        Type::Nil => TypeV::Nil,
        Type::Bool => TypeV::Bool,
        Type::Custom(s) => TypeV::Custom(s@),
    }
}

/// Model of an expression tree.
pub open spec fn expr_view(e: Expr) -> ExprV
    decreases e,
{
    match e {
        Expr::Int(v) => ExprV::Int(v),
        Expr::Float(s) => ExprV::Float(s@),
        Expr::Bool(b) => ExprV::Bool(b),
        Expr::Str(s) => ExprV::Str(s@),
        Expr::Nil => ExprV::Nil,
        Expr::Ident(s) => ExprV::Ident(s@),
        Expr::Prefix { op, rhs } => ExprV::Prefix { op, rhs: Box::new(expr_view(*rhs)) },
        Expr::Infix { op, lhs, rhs } => ExprV::Infix {
            op,
            lhs: Box::new(expr_view(*lhs)),
            rhs: Box::new(expr_view(*rhs)),
        },
        Expr::Call { callee, args } => ExprV::Call {
            callee: Box::new(expr_view(*callee)),
            args: exprs_view(args@),
        },
        Expr::Index { target, index } => ExprV::Index {
            target: Box::new(expr_view(*target)),
            index: Box::new(expr_view(*index)),
        },
        Expr::Group(inner) => ExprV::Group(Box::new(expr_view(*inner))),
        Expr::StructLiteral { name, fields } => ExprV::StructLiteral {
            name: name@,
            fields: field_exprs_view(fields@),
        },
        Expr::FieldAccess { target, field } => ExprV::FieldAccess {
            target: Box::new(expr_view(*target)),
            field: field@,
        },
    }
}

/// Model of an ordered expression list.
pub open spec fn exprs_view(es: Seq<Expr>) -> Seq<ExprV>
    decreases es,
{
    if es.len() == 0 {
        Seq::empty()
    } else {
        exprs_view(es.subrange(0, es.len() - 1)).push(expr_view(es[es.len() - 1]))
    }
}

/// Model of an ordered (field name, value expression) list.
pub open spec fn field_exprs_view(fs: Seq<(String, Expr)>) -> Seq<(Seq<char>, ExprV)>
    decreases fs,
{
    if fs.len() == 0 {
        Seq::empty()
    } else {
        field_exprs_view(fs.subrange(0, fs.len() - 1)).push(
            (fs[fs.len() - 1].0@, expr_view(fs[fs.len() - 1].1)),
        )
    }
}

/// Model of an ordered (name, declared type) list.
pub open spec fn field_types_view(fs: Seq<(String, Type)>) -> Seq<(Seq<char>, TypeV)>
    decreases fs,
{
    if fs.len() == 0 {
        Seq::empty()
    } else {
        field_types_view(fs.subrange(0, fs.len() - 1)).push(
            (fs[fs.len() - 1].0@, type_view(fs[fs.len() - 1].1)),
        )
    }
}

/// Model of a statement tree.
pub open spec fn stmt_view(s: Stmt) -> StmtV
    decreases s,
{
    match s {
        Stmt::Let { name, mutable, valuetype, value } => StmtV::Let {
            name: name@,
            mutable,
            valuetype: type_view(valuetype),
            value: match value {
                Some(e) => Some(expr_view(e)),
                None => None,
            },
        },
        Stmt::ExprStmt(e) => StmtV::ExprStmt(expr_view(e)),
        Stmt::Return(oe) => StmtV::Return(
            match oe {
                Some(e) => Some(expr_view(e)),
                None => None,
            },
        ),
        Stmt::Struct { name, fields } => StmtV::Struct {
            name: name@,
            fields: field_types_view(fields@),
        },
        Stmt::While { cond, body } => StmtV::While {
            cond: expr_view(cond),
            body: stmts_view(body@),
        },
        Stmt::If { cond, then_branch, else_branch } => StmtV::If {
            cond: expr_view(cond),
            then_branch: stmts_view(then_branch@),
            else_branch: match else_branch {
                Some(BlockOrIf::Block(b)) => Some(BlockOrIfV::Block(stmts_view(b@))),
                Some(BlockOrIf::If(s)) => Some(BlockOrIfV::If(Box::new(stmt_view(*s)))),
                None => None,
            },
        },
        Stmt::Func { name, params, returntype, body } => StmtV::Func {
            name: name@,
            params: field_types_view(params@),
            returntype: type_view(returntype),
            body: stmts_view(body@),
        },
        Stmt::Out => StmtV::Out,
        Stmt::Skip => StmtV::Skip,
        Stmt::Block(b) => StmtV::Block(stmts_view(b@)),
    }
}

/// Model of an ordered statement sequence.
pub open spec fn stmts_view(ss: Seq<Stmt>) -> Seq<StmtV>
    decreases ss,
{
    if ss.len() == 0 {
        Seq::empty()
    } else {
        stmts_view(ss.subrange(0, ss.len() - 1)).push(stmt_view(ss[ss.len() - 1]))
    }
}

/// Appending an expression appends its model.
pub proof fn lemma_exprs_view_push(s: Seq<Expr>, x: Expr)
    ensures
        exprs_view(s.push(x)) == exprs_view(s).push(expr_view(x)),
{
    assert(s.push(x).subrange(0, s.len() as int) =~= s);
}

/// Appending a (name, expression) pair appends its model.
pub proof fn lemma_field_exprs_view_push(s: Seq<(String, Expr)>, x: (String, Expr))
    ensures
        field_exprs_view(s.push(x)) == field_exprs_view(s).push((x.0@, expr_view(x.1))),
{
    assert(s.push(x).subrange(0, s.len() as int) =~= s);
}

/// Appending a (name, type) pair appends its model.
pub proof fn lemma_field_types_view_push(s: Seq<(String, Type)>, x: (String, Type))
    ensures
        field_types_view(s.push(x)) == field_types_view(s).push((x.0@, type_view(x.1))),
{
    assert(s.push(x).subrange(0, s.len() as int) =~= s);
}

/// Appending a statement appends its model.
pub proof fn lemma_stmts_view_push(s: Seq<Stmt>, x: Stmt)
    ensures
        stmts_view(s.push(x)) == stmts_view(s).push(stmt_view(x)),
{
    assert(s.push(x).subrange(0, s.len() as int) =~= s);
}

/// Model of a parsed program.
pub open spec fn program_view(p: Program) -> ProgramV {
    ProgramV { stmts: stmts_view(p.stmts@) }
}

/// A fatal lexical error; the first one aborts the whole lex pass.
#[derive(Debug, Clone, Copy, PartialEq, Eq, Structural)]
pub enum LexError {
    /// End of input was reached before a closing quote.
    UnterminatedString,
    /// End of input was reached directly after a backslash in a string.
    UnterminatedEscape,
    /// A backslash was followed by a character that names no escape.
    InvalidEscape(char),
    /// A lone `&` or `|`; only the doubled logical forms exist.
    LoneOperator(char),
    /// A character that starts no token.
    UnexpectedChar(char),
    /// An integer literal whose value does not fit in a 64-bit integer.
    IntOutOfRange,
}

/// A fatal parse error; the first one aborts the whole parse pass.
#[derive(Debug, PartialEq)]
pub enum ParseError {
    /// A specific token was required and a different one was found.
    UnexpectedToken { expected: TokenKind, found: TokenKind, context: String },
    /// An identifier was required and something else was found.
    ExpectedIdent { found: TokenKind, context: String },
    /// A type name was required and something else was found.
    ExpectedType { found: TokenKind },
    /// No expression can start with the token that was found.
    UnexpectedPrimary { found: TokenKind },
}

/// Spec-level model of `ParseError`.
pub ghost enum ParseErrorV {
    UnexpectedToken { expected: TokenV, found: TokenV, context: Seq<char> },
    ExpectedIdent { found: TokenV, context: Seq<char> },
    ExpectedType { found: TokenV },
    UnexpectedPrimary { found: TokenV },
}

/// Model of a parse error.
pub open spec fn parse_error_view(e: ParseError) -> ParseErrorV {
    match e {
        ParseError::UnexpectedToken { expected, found, context } => ParseErrorV::UnexpectedToken {
            expected: expected@,
            found: found@,
            context: context@,
        },
        ParseError::ExpectedIdent { found, context } => ParseErrorV::ExpectedIdent {
            found: found@,
            context: context@,
        },
        ParseError::ExpectedType { found } => ParseErrorV::ExpectedType { found: found@ },
        ParseError::UnexpectedPrimary { found } => ParseErrorV::UnexpectedPrimary { found: found@ },
    }
}

impl View for Expr {
    type V = ExprV;

    open spec fn view(&self) -> ExprV {
        expr_view(*self)
    }
}

impl View for Stmt {
    type V = StmtV;

    open spec fn view(&self) -> StmtV {
        stmt_view(*self)
    }
}

impl View for Type {
    type V = TypeV;

    open spec fn view(&self) -> TypeV {
        type_view(*self)
    }
}

impl View for Program {
    type V = ProgramV;

    open spec fn view(&self) -> ProgramV {
        program_view(*self)
    }
}

impl View for ParseError {
    type V = ParseErrorV;

    open spec fn view(&self) -> ParseErrorV {
        parse_error_view(*self)
    }
}

} // verus!
