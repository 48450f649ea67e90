//! The whole front end as one mathematical function, and its determinism.
//!
//! `spec_front_end` composes the lexer model and the parser model.  Because
//! the contracts of `lex` and `parse_tokens` pin each executable result to
//! exactly these models, every run of the front end computes
//! `spec_front_end` of its input text.

use vstd::prelude::*;
use crate::ast::LexError;
use crate::ast::ParseErrorV;
use crate::ast::ProgramV;
use crate::lexer::spec_lex;
use crate::grammar::sp_parse_tokens;

verus! {

/// What a run of the front end yields for a source text: a program tree, or
/// the first fatal lexical or parse error.
pub ghost enum FrontEndOutcome {
    Prog(ProgramV),
    LexFail(LexError),
    ParseFail(ParseErrorV),
}

/// The front end as a function of the source text alone: lex, then parse.
pub open spec fn spec_front_end(src: Seq<char>) -> FrontEndOutcome {
    match spec_lex(src) {
        Err(e) => FrontEndOutcome::LexFail(e),
        Ok(toks) => match sp_parse_tokens(toks) {
            Err(e) => FrontEndOutcome::ParseFail(e),
            Ok(p) => FrontEndOutcome::Prog(p),
        },
    }
}

/// Lexing followed by parsing is deterministic: identical source text always
/// yields a structurally identical token sequence and tree, or the identical
/// fatal error.  The `ensures` of `lex` pins its result to `spec_lex`, and
/// the `ensures` of `parse_tokens` pins its result to `sp_parse_tokens`, so
/// every executable run computes exactly `spec_front_end` of its input; the
/// outcome is a function of the text.
pub proof fn lemma_front_end_deterministic(a: Seq<char>, b: Seq<char>)
    requires
        a == b,
    ensures
        spec_front_end(a) == spec_front_end(b),
{
}

} // verus!
