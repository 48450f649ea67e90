//! Front end for the Butter scripting language: a lexer that turns source
//! text into a finite token sequence ending in a single end-of-input token,
//! and a recursive-descent parser that turns that token sequence into an
//! abstract syntax tree for a whole program.
//!
//! Every executable function is specified against a mathematical model: the
//! lexer against `spec_lex`, a recursive specification of maximal-munch
//! scanning over a sequence of characters, and the parser against a family of
//! `sp_*` specification functions, one per grammar level, over a sequence of
//! token models.  The results are therefore pinned down exactly: identical
//! input always yields the identical token sequence and tree, or the
//! identical error.

pub mod ast;
pub mod front;
pub mod grammar;
pub mod lexer;
pub mod parser;
pub mod token;
