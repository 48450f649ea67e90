//! The lexer: maximal-munch scanning of source text into a token sequence
//! that ends in exactly one end-of-input token.
//!
//! The specification half models the scan as recursive functions over a
//! `Seq<char>`: `ws_end`, `comment_end`, `ident_end` and `digits_end` give
//! the end of each kind of character run, `str_body` gives the unescaped
//! content of a string literal, and `spec_next_token` / `spec_lex` give the
//! token stream itself.  The executable `Lexer` is proved to compute exactly
//! these functions.

use vstd::prelude::*;
use crate::token::TokenKind;
use crate::token::str_eq;
use crate::token::TokenV;
use crate::ast::LexError;

verus! {

/// The Unicode white-space characters, as skipped between tokens.
pub open spec fn is_ws_char(c: char) -> bool {
    c == ' ' || c == '\t' || c == '\n' || c == '\r' || c == '\u{0b}' || c == '\u{0c}'
        || c == '\u{85}' || c == '\u{a0}' || c == '\u{1680}'
        || (0x2000 <= c as u32 && c as u32 <= 0x200a) || c == '\u{2028}' || c == '\u{2029}'
        || c == '\u{202f}' || c == '\u{205f}' || c == '\u{3000}'
}

/// An ASCII decimal digit.
pub open spec fn is_digit_char(c: char) -> bool {
    0x30 <= c as u32 && c as u32 <= 0x39
}

/// A character that may start an identifier: an ASCII letter or `_`.
pub open spec fn is_ident_start_char(c: char) -> bool {
    (0x41 <= c as u32 && c as u32 <= 0x5a) || (0x61 <= c as u32 && c as u32 <= 0x7a)
        || c == '_'
}

/// A character that may continue an identifier: a letter, digit, or `_`.
pub open spec fn is_ident_cont_char(c: char) -> bool {
    is_ident_start_char(c) || is_digit_char(c)
}

/// The first position at or after `i` that does not hold white space.
pub open spec fn ws_end(s: Seq<char>, i: int) -> int
    decreases s.len() - i,
{
    if 0 <= i && i < s.len() && is_ws_char(s[i]) {
        ws_end(s, i + 1)
    } else {
        i
    }
}

/// The position just after a line comment that starts at `i`: everything up
/// to and including the next newline, or the end of input.
pub open spec fn comment_end(s: Seq<char>, i: int) -> int
    decreases s.len() - i,
{
    if 0 <= i && i < s.len() {
        if s[i] == '\n' {
            i + 1
        } else {
            comment_end(s, i + 1)
        }
    } else {
        i
    }
}

/// The first position at or after `i` that cannot continue an identifier.
pub open spec fn ident_end(s: Seq<char>, i: int) -> int
    decreases s.len() - i,
{
    if 0 <= i && i < s.len() && is_ident_cont_char(s[i]) {
        ident_end(s, i + 1)
    } else {
        i
    }
}

/// The first position at or after `i` that does not hold a digit.
pub open spec fn digits_end(s: Seq<char>, i: int) -> int
    decreases s.len() - i,
{
    if 0 <= i && i < s.len() && is_digit_char(s[i]) {
        digits_end(s, i + 1)
    } else {
        i
    }
}

/// The keyword token for a scanned identifier text, or an identifier token
/// when the text matches no keyword.
pub open spec fn keyword_of(t: Seq<char>) -> TokenV {
    if t == "let"@ {
        TokenV::KwLet
    } else if t == "mut"@ {
        TokenV::KwMut
    } else if t == "fn"@ {
        TokenV::KwFn
    } else if t == "if"@ {
        TokenV::KwIf
    } else if t == "else"@ {
        TokenV::KwElse
    } else if t == "struct"@ {
        TokenV::KwStruct
    } else if t == "for"@ {
        TokenV::KwFor
    } else if t == "while"@ {
        TokenV::KwWhile
    } else if t == "return"@ {
        TokenV::KwReturn
    } else if t == "out"@ {
        TokenV::KwOut
    } else if t == "skip"@ {
        TokenV::KwSkip
    } else if t == "true"@ {
        TokenV::KwTrue
    } else if t == "false"@ {
        TokenV::KwFalse
    } else if t == "const"@ {
        TokenV::KwConst
    } else if t == "import"@ {
        TokenV::KwImport
    } else if t == "nil"@ {
        TokenV::KwNil
    } else {
        TokenV::Ident(t)
    }
}

/// The numeric value of one decimal digit character.
pub open spec fn digit_val(c: char) -> int {
    c as u32 - 0x30
}

/// Whether every character of `t` is a decimal digit.
pub open spec fn all_digits(t: Seq<char>) -> bool {
    forall|k: int| 0 <= k < t.len() ==> is_digit_char(#[trigger] t[k])
}

/// The value of a run of decimal digit characters, most significant first.
pub open spec fn digits_val(t: Seq<char>) -> int
    decreases t.len(),
{
    if t.len() == 0 {
        0
    } else {
        digits_val(t.drop_last()) * 10 + digit_val(t.last())
    }
}

/// The character denoted by an escape, for the recognized escape characters.
pub open spec fn esc_char(c: char) -> Option<char> {
    if c == 'n' {
        Some('\n')
    } else if c == 't' {
        Some('\t')
    } else if c == 'r' {
        Some('\r')
    } else if c == '\\' {
        Some('\\')
    } else if c == '"' {
        Some('"')
    } else if c == '0' {
        Some('\0')
    } else {
        None
    }
}

/// The unescaped content of a string literal whose body starts at `i` (just
/// after the opening quote), together with the position just after the
/// closing quote.  Either quote character closes the literal.
pub open spec fn str_body(s: Seq<char>, i: int) -> Result<(Seq<char>, int), LexError>
    decreases s.len() - i,
{
    if !(0 <= i && i < s.len()) {
        Err(LexError::UnterminatedString)
    } else {
        let c = s[i];
        if c == '"' || c == '\'' {
            Ok((Seq::empty(), i + 1))
        } else if c == '\\' {
            if i + 1 >= s.len() {
                Err(LexError::UnterminatedEscape)
            } else {
                match esc_char(s[i + 1]) {
                    None => Err(LexError::InvalidEscape(s[i + 1])),
                    Some(ch) => match str_body(s, i + 2) {
                        Ok((rest, e)) => Ok((seq![ch].add(rest), e)),
                        Err(x) => Err(x),
                    },
                }
            }
        } else {
            match str_body(s, i + 1) {
                Ok((rest, e)) => Ok((seq![c].add(rest), e)),
                Err(x) => Err(x),
            }
        }
    }
}

/// `x`, forced into the interval `[lo, hi]`.  The scan positions fed to
/// recursive calls are pinned this way so that termination is evident; the
/// executable lexer shows that the pin never changes a value.
pub open spec fn clamp_pos(x: int, lo: int, hi: int) -> int {
    if x < lo || hi < lo {
        lo
    } else if x > hi {
        hi
    } else {
        x
    }
}

/// The token scanned for an identifier or keyword whose first character
/// stands at `j`.
pub open spec fn ident_token(s: Seq<char>, j: int) -> (TokenV, int) {
    let e = ident_end(s, j + 1);
    (keyword_of(s.subrange(j, e)), e)
}

/// The token scanned for a numeric literal whose first digit stands at `j`:
/// a float when the digit run is followed by `.` and at least one digit,
/// otherwise an integer, fatal when its value exceeds the 64-bit range.
pub open spec fn number_token(s: Seq<char>, j: int) -> Result<(TokenV, int), LexError> {
    let e1 = digits_end(s, j + 1);
    if e1 < s.len() && s[e1] == '.' && e1 + 1 < s.len() && is_digit_char(s[e1 + 1]) {
        let e2 = digits_end(s, e1 + 2);
        Ok((TokenV::FloatLiteral(s.subrange(j, e2)), e2))
    } else {
        let v = digits_val(s.subrange(j, e1));
        if v > i64::MAX as int {
            Err(LexError::IntOutOfRange)
        } else {
            Ok((TokenV::IntLiteral(v as i64), e1))
        }
    }
}

/// The token scanned for a string literal whose opening quote stands at `j`.
pub open spec fn string_token(s: Seq<char>, j: int) -> Result<(TokenV, int), LexError> {
    match str_body(s, j + 1) {
        Ok((body, e)) => Ok((TokenV::StringLiteral(body), e)),
        Err(x) => Err(x),
    }
}

/// The token scanned for an operator or punctuation character at `j`, with
/// two-character operators taking precedence over their one-character
/// prefix.  A lone `&` or `|`, or any unknown character, is fatal.  The
/// comment form of `/` is not handled here.
pub open spec fn punct_token(s: Seq<char>, j: int) -> Result<(TokenV, int), LexError> {
    let c = s[j];
    let two = j + 1 < s.len();
    if c == '/' {
        if two && s[j + 1] == '=' {
            Ok((TokenV::SlashEqual, j + 2))
        } else {
            Ok((TokenV::Slash, j + 1))
        }
    } else if c == '+' {
        if two && s[j + 1] == '=' {
            Ok((TokenV::PlusEqual, j + 2))
        } else {
            Ok((TokenV::Plus, j + 1))
        }
    } else if c == '-' {
        if two && s[j + 1] == '=' {
            Ok((TokenV::MinusEqual, j + 2))
        } else {
            Ok((TokenV::Minus, j + 1))
        }
    } else if c == '*' {
        if two && s[j + 1] == '=' {
            Ok((TokenV::StarEqual, j + 2))
        } else {
            Ok((TokenV::Star, j + 1))
        }
    } else if c == '%' {
        Ok((TokenV::Percent, j + 1))
    } else if c == '=' {
        if two && s[j + 1] == '=' {
            Ok((TokenV::EqEq, j + 2))
        } else if two && s[j + 1] == '>' {
            Ok((TokenV::FatArrow, j + 2))
        } else {
            Ok((TokenV::Equal, j + 1))
        }
    } else if c == '!' {
        if two && s[j + 1] == '=' {
            Ok((TokenV::BangEq, j + 2))
        } else {
            Ok((TokenV::Bang, j + 1))
        }
    } else if c == '<' {
        if two && s[j + 1] == '=' {
            Ok((TokenV::LessEq, j + 2))
        } else {
            Ok((TokenV::Less, j + 1))
        }
    } else if c == '>' {
        if two && s[j + 1] == '=' {
            Ok((TokenV::GreaterEq, j + 2))
        } else {
            Ok((TokenV::Greater, j + 1))
        }
    } else if c == '&' {
        if two && s[j + 1] == '&' {
            Ok((TokenV::AndAnd, j + 2))
        } else {
            Err(LexError::LoneOperator('&'))
        }
    } else if c == '|' {
        if two && s[j + 1] == '|' {
            Ok((TokenV::OrOr, j + 2))
        } else {
            Err(LexError::LoneOperator('|'))
        }
    } else if c == '.' {
        Ok((TokenV::Dot, j + 1))
    } else if c == '(' {
        Ok((TokenV::LParen, j + 1))
    } else if c == ')' {
        Ok((TokenV::RParen, j + 1))
    } else if c == '{' {
        Ok((TokenV::LBrace, j + 1))
    } else if c == '}' {
        Ok((TokenV::RBrace, j + 1))
    } else if c == '[' {
        Ok((TokenV::LBracket, j + 1))
    } else if c == ']' {
        Ok((TokenV::RBracket, j + 1))
    } else if c == ',' {
        Ok((TokenV::Comma, j + 1))
    } else if c == ';' {
        Ok((TokenV::Semicolon, j + 1))
    } else if c == ':' {
        Ok((TokenV::Colon, j + 1))
    } else {
        Err(LexError::UnexpectedChar(c))
    }
}

/// The next token of `s` starting at position `i`, and the position just
/// after it: white space is skipped, a line comment restarts the scan after
/// its newline, and the end of input yields the end-of-input token.
pub open spec fn spec_next_token(s: Seq<char>, i: int) -> Result<(TokenV, int), LexError>
    decreases s.len() - i,
{
    let j = clamp_pos(ws_end(s, i), i, s.len() as int);
    if j >= s.len() {
        Ok((TokenV::Eof, j))
    } else {
        let c = s[j];
        if is_ident_start_char(c) {
            Ok(ident_token(s, j))
        } else if is_digit_char(c) {
            number_token(s, j)
        } else if c == '"' || c == '\'' {
            string_token(s, j)
        } else if c == '/' && j + 1 < s.len() && s[j + 1] == '/' {
            spec_next_token(s, clamp_pos(comment_end(s, j + 2), j + 2, s.len() as int))
        } else {
            punct_token(s, j)
        }
    }
}

/// The token sequence of `s` from position `i` on: the tokens that
/// `spec_next_token` yields in order, through the first end-of-input token,
/// or the first fatal error.
pub open spec fn spec_lex_from(s: Seq<char>, i: int) -> Result<Seq<TokenV>, LexError>
    decreases s.len() - i,
{
    if i >= s.len() {
        Ok(seq![TokenV::Eof])
    } else {
        match spec_next_token(s, i) {
            Err(x) => Err(x),
            Ok((t, j)) => {
                if t == TokenV::Eof {
                    Ok(seq![TokenV::Eof])
                } else {
                    match spec_lex_from(s, clamp_pos(j, i + 1, s.len() as int)) {
                        Err(x) => Err(x),
                        Ok(rest) => Ok(seq![t].add(rest)),
                    }
                }
            },
        }
    }
}

/// The token sequence of a whole source text.
pub open spec fn spec_lex(s: Seq<char>) -> Result<Seq<TokenV>, LexError> {
    spec_lex_from(s, 0)
}

/// A successful scan from any position ends with exactly one end-of-input
/// token: the last token is `Eof` and no earlier one is.
pub proof fn lemma_lex_from_terminated(s: Seq<char>, i: int)
    ensures
        match spec_lex_from(s, i) {
            Ok(toks) => toks.len() >= 1 && toks.last() == TokenV::Eof && forall|k: int|
                0 <= k < toks.len() - 1 ==> toks[k] != TokenV::Eof,
            Err(_) => true,
        },
    decreases s.len() - i,
{
    if i >= s.len() {
    } else {
        match spec_next_token(s, i) {
            Err(_) => {},
            Ok((t, j)) => {
                if t == TokenV::Eof {
                } else {
                    lemma_lex_from_terminated(s, clamp_pos(j, i + 1, s.len() as int));
                }
            },
        }
    }
}

/// The token sequence of any successfully lexed text contains exactly one
/// end-of-input token, positioned last.
pub proof fn lemma_token_stream_terminated(src: Seq<char>, toks: Seq<TokenV>)
    requires
        spec_lex(src) == Result::<Seq<TokenV>, LexError>::Ok(toks),
    ensures
        toks.len() >= 1,
        toks.last() == TokenV::Eof,
        forall|k: int| 0 <= k < toks.len() - 1 ==> toks[k] != TokenV::Eof,
{
    lemma_lex_from_terminated(src, 0);
}

/// The model of an executable token sequence.
pub open spec fn tokens_view(s: Seq<TokenKind>) -> Seq<TokenV> {
    s.map_values(|t: TokenKind| t@)
}

/// The value of a digit run never shrinks when more digits follow.
proof fn lemma_digits_val_nonneg(t: Seq<char>)
    requires
        all_digits(t),
    ensures
        digits_val(t) >= 0,
    decreases t.len(),
{
    if t.len() > 0 {
        assert(all_digits(t.drop_last()));
        lemma_digits_val_nonneg(t.drop_last());
    }
}

/// The value of a whole digit run is at least the value of any prefix.
proof fn lemma_digits_val_extends(t: Seq<char>, k: int)
    requires
        all_digits(t),
        0 <= k <= t.len(),
    ensures
        digits_val(t) >= digits_val(t.subrange(0, k)),
    decreases t.len() - k,
{
    if k == t.len() {
        assert(t.subrange(0, k) =~= t);
    } else {
        lemma_digits_val_extends(t, k + 1);
        let p = t.subrange(0, k + 1);
        assert(p.drop_last() =~= t.subrange(0, k));
        assert(all_digits(t.subrange(0, k)));
        lemma_digits_val_nonneg(t.subrange(0, k));
        assert(digits_val(p) == digits_val(t.subrange(0, k)) * 10 + digit_val(p.last()));
        assert(digits_val(p) >= digits_val(t.subrange(0, k)));
    }
}

/// Relies on String::push: it appends exactly the given character.
#[verifier::external_body]
fn push_char(s: &mut String, c: char)
    ensures
        final(s)@ == old(s)@.push(c),
{
    s.push(c);
}

/// Decides `is_ws_char`.
fn char_is_ws(c: char) -> (b: bool)
    ensures
        b == is_ws_char(c),
{
    c == ' ' || c == '\t' || c == '\n' || c == '\r' || c == '\u{0b}' || c == '\u{0c}'
        || c == '\u{85}' || c == '\u{a0}' || c == '\u{1680}'
        || (0x2000 <= c as u32 && c as u32 <= 0x200a) || c == '\u{2028}' || c == '\u{2029}'
        || c == '\u{202f}' || c == '\u{205f}' || c == '\u{3000}'
}

/// Decides `is_digit_char`.
fn char_is_digit(c: char) -> (b: bool)
    ensures
        b == is_digit_char(c),
{
    let u = c as u32;
    0x30 <= u && u <= 0x39
}

/// Decides `is_ident_start_char`.
fn char_is_ident_start(c: char) -> (b: bool)
    ensures
        b == is_ident_start_char(c),
{
    let u = c as u32;
    (0x41 <= u && u <= 0x5a) || (0x61 <= u && u <= 0x7a) || c == '_'
}

/// Decides `is_ident_cont_char`.
fn char_is_ident_cont(c: char) -> (b: bool)
    ensures
        b == is_ident_cont_char(c),
{
    char_is_ident_start(c) || char_is_digit(c)
}

/// A cursor over the characters of one source text.
pub struct Lexer {
    text: String,
    chars: Vec<char>,
    pos: usize,
    len: usize,
}

impl Lexer {
    /// The characters being scanned.
    pub closed spec fn src(&self) -> Seq<char> {
        self.chars@
    }

    /// The current scan position, in characters.
    pub closed spec fn cursor(&self) -> int {
        self.pos as int
    }

    /// The cursor stays within the text, which the length field measures.
    pub closed spec fn wf(&self) -> bool {
        self.text@ == self.chars@ && self.len == self.chars@.len() && self.pos <= self.len
    }

    /// Starts a scan of `src` at its first character.
    pub fn new(src: &str) -> (l: Lexer)
        ensures
            l.wf(),
            l.src() == src@,
            l.cursor() == 0,
    {
        let n = src.unicode_len();
        let mut chars: Vec<char> = Vec::new();
        let mut i: usize = 0;
        while i < n
            invariant
                n == src@.len(),
                i <= n,
                chars@.len() == i,
                forall|j: int| 0 <= j < i ==> chars@[j] == src@[j],
            decreases n - i,
        {
            let c = src.get_char(i);
            chars.push(c);
            i = i + 1;
        }
        proof {
            assert(chars@ =~= src@);
        }
        let text = src.to_owned();
        Lexer { text, chars, pos: 0, len: n }
    }

    /// Whether the whole text has been consumed.
    pub fn is_eof(&self) -> (b: bool)
        requires
            self.wf(),
        ensures
            b == (self.cursor() >= self.src().len()),
    {
        self.pos >= self.len
    }

    /// The character under the cursor, if any.
    pub fn curr(&self) -> (c: Option<char>)
        requires
            self.wf(),
        ensures
            c == if self.cursor() < self.src().len() {
                Some(self.src()[self.cursor()])
            } else {
                None::<char>
            },
    {
        if self.pos < self.len {
            Some(self.chars[self.pos])
        } else {
            None
        }
    }

    /// The character just after the cursor, if any.
    pub fn next(&self) -> (c: Option<char>)
        requires
            self.wf(),
        ensures
            c == if self.cursor() + 1 < self.src().len() {
                Some(self.src()[self.cursor() + 1])
            } else {
                None::<char>
            },
    {
        if self.pos < self.len && self.pos + 1 < self.len {
            Some(self.chars[self.pos + 1])
        } else {
            None
        }
    }

    /// Consumes and returns the character under the cursor, if any.
    pub fn bump(&mut self) -> (c: Option<char>)
        requires
            old(self).wf(),
        ensures
            final(self).wf(),
            final(self).src() == old(self).src(),
            old(self).cursor() < old(self).src().len() ==> c == Some(
                old(self).src()[old(self).cursor()],
            ) && final(self).cursor() == old(self).cursor() + 1,
            old(self).cursor() >= old(self).src().len() ==> c == None::<char>
                && final(self).cursor() == old(self).cursor(),
    {
        if self.pos < self.len {
            let c = self.chars[self.pos];
            self.pos = self.pos + 1;
            Some(c)
        } else {
            None
        }
    }

    /// Moves the cursor to the first position that holds no white space.
    pub fn skip_whitespace(&mut self)
        requires
            old(self).wf(),
        ensures
            final(self).wf(),
            final(self).src() == old(self).src(),
            old(self).cursor() <= final(self).cursor(),
            final(self).cursor() == ws_end(old(self).src(), old(self).cursor()),
    {
        loop
            invariant
                self.wf(),
                self.src() == old(self).src(),
                old(self).cursor() <= self.cursor(),
                ws_end(self.src(), old(self).cursor()) == ws_end(self.src(), self.cursor()),
            ensures
                self.wf(),
                self.src() == old(self).src(),
                old(self).cursor() <= self.cursor(),
                self.cursor() == ws_end(self.src(), old(self).cursor()),
            decreases self.src().len() - self.cursor(),
        {
            if self.pos < self.len {
                let c = self.chars[self.pos];
                if char_is_ws(c) {
                    self.pos = self.pos + 1;
                } else {
                    break;
                }
            } else {
                break;
            }
        }
    }

    /// Consumes the rest of a line comment, through the next newline or to
    /// the end of input.
    pub fn skip_line_comment(&mut self)
        requires
            old(self).wf(),
        ensures
            final(self).wf(),
            final(self).src() == old(self).src(),
            old(self).cursor() <= final(self).cursor(),
            final(self).cursor() == comment_end(old(self).src(), old(self).cursor()),
    {
        loop
            invariant_except_break
                comment_end(self.src(), old(self).cursor()) == comment_end(
                    self.src(),
                    self.cursor(),
                ),
            invariant
                self.wf(),
                self.src() == old(self).src(),
                old(self).cursor() <= self.cursor(),
            ensures
                self.wf(),
                self.src() == old(self).src(),
                old(self).cursor() <= self.cursor(),
                self.cursor() == comment_end(self.src(), old(self).cursor()),
            decreases self.src().len() - self.cursor(),
        {
            if self.pos < self.len {
                let c = self.chars[self.pos];
                self.pos = self.pos + 1;
                if c == '\n' {
                    break;
                }
            } else {
                break;
            }
        }
    }

    /// Scans an identifier run and classifies it against the keyword list.
    fn ident_or_kw(&mut self) -> (t: TokenKind)
        requires
            old(self).wf(),
            old(self).cursor() < old(self).src().len(),
            is_ident_start_char(old(self).src()[old(self).cursor()]),
        ensures
            final(self).wf(),
            final(self).src() == old(self).src(),
            old(self).cursor() < final(self).cursor(),
            (t@, final(self).cursor()) == ident_token(old(self).src(), old(self).cursor()),
    {
        let start = self.pos;
        self.pos = self.pos + 1;
        loop
            invariant
                self.wf(),
                self.src() == old(self).src(),
                start + 1 <= self.cursor(),
                ident_end(self.src(), start + 1) == ident_end(self.src(), self.cursor()),
            ensures
                self.wf(),
                self.src() == old(self).src(),
                start + 1 <= self.cursor(),
                self.cursor() == ident_end(self.src(), start + 1),
            decreases self.src().len() - self.cursor(),
        {
            if self.pos < self.len {
                let c = self.chars[self.pos];
                if char_is_ident_cont(c) {
                    self.pos = self.pos + 1;
                } else {
                    break;
                }
            } else {
                break;
            }
        }
        let text: String = self.text.as_str().substring_char(start, self.pos).to_owned();
        proof {
            assert(text@ == self.src().subrange(start as int, self.pos as int));
        }
        if str_eq(text.as_str(), "let") {
            TokenKind::KwLet
        } else if str_eq(text.as_str(), "mut") {
            TokenKind::KwMut
        } else if str_eq(text.as_str(), "fn") {
            TokenKind::KwFn
        } else if str_eq(text.as_str(), "if") {
            TokenKind::KwIf
        } else if str_eq(text.as_str(), "else") {
            TokenKind::KwElse
        } else if str_eq(text.as_str(), "struct") {
            TokenKind::KwStruct
        } else if str_eq(text.as_str(), "for") {
            TokenKind::KwFor
        } else if str_eq(text.as_str(), "while") {
            TokenKind::KwWhile
        } else if str_eq(text.as_str(), "return") {
            TokenKind::KwReturn
        } else if str_eq(text.as_str(), "out") {
            TokenKind::KwOut
        } else if str_eq(text.as_str(), "skip") {
            TokenKind::KwSkip
        } else if str_eq(text.as_str(), "true") {
            TokenKind::KwTrue
        } else if str_eq(text.as_str(), "false") {
            TokenKind::KwFalse
        } else if str_eq(text.as_str(), "const") {
            TokenKind::KwConst
        } else if str_eq(text.as_str(), "import") {
            TokenKind::KwImport
        } else if str_eq(text.as_str(), "nil") {
            TokenKind::KwNil
        } else {
            TokenKind::Ident(text)
        }
    }

    /// Scans a numeric literal: an integer, or a float when the digit run is
    /// followed by `.` and at least one digit.
    fn lex_number(&mut self) -> (r: Result<TokenKind, LexError>)
        requires
            old(self).wf(),
            old(self).cursor() < old(self).src().len(),
            is_digit_char(old(self).src()[old(self).cursor()]),
        ensures
            final(self).wf(),
            final(self).src() == old(self).src(),
            old(self).cursor() < final(self).cursor(),
            match r {
                Ok(t) => number_token(old(self).src(), old(self).cursor()) == Ok::<
                    (TokenV, int),
                    LexError,
                >((t@, final(self).cursor())),
                Err(e) => number_token(old(self).src(), old(self).cursor()) == Err::<
                    (TokenV, int),
                    LexError,
                >(e),
            },
    {
        let start = self.pos;
        self.pos = self.pos + 1;
        loop
            invariant
                self.wf(),
                self.src() == old(self).src(),
                start + 1 <= self.cursor(),
                digits_end(self.src(), start + 1) == digits_end(self.src(), self.cursor()),
                forall|m: int| start <= m < self.cursor() ==> is_digit_char(#[trigger] self.src()[m]),
            ensures
                self.wf(),
                self.src() == old(self).src(),
                start + 1 <= self.cursor(),
                self.cursor() == digits_end(self.src(), start + 1),
                forall|m: int| start <= m < self.cursor() ==> is_digit_char(#[trigger] self.src()[m]),
            decreases self.src().len() - self.cursor(),
        {
            if self.pos < self.len {
                let c = self.chars[self.pos];
                if char_is_digit(c) {
                    self.pos = self.pos + 1;
                } else {
                    break;
                }
            } else {
                break;
            }
        }
        let e1 = self.pos;
        let mut is_float = false;
        if e1 < self.len && self.chars[e1] == '.' && e1 + 1 < self.len {
            let c2 = self.chars[e1 + 1];
            if char_is_digit(c2) {
                is_float = true;
            }
        }
        if is_float {
            self.pos = self.pos + 1;
            proof {
                assert(digits_end(self.src(), e1 + 1) == digits_end(self.src(), e1 + 2));
            }
            loop
                invariant
                    self.wf(),
                    self.src() == old(self).src(),
                    e1 + 1 <= self.cursor(),
                    digits_end(self.src(), e1 + 1) == digits_end(self.src(), self.cursor()),
                ensures
                    self.wf(),
                    self.src() == old(self).src(),
                    e1 + 1 <= self.cursor(),
                    self.cursor() == digits_end(self.src(), e1 + 1),
                decreases self.src().len() - self.cursor(),
            {
                if self.pos < self.len {
                    let c = self.chars[self.pos];
                    if char_is_digit(c) {
                        self.pos = self.pos + 1;
                    } else {
                        break;
                    }
                } else {
                    break;
                }
            }
            let text: String = self.text.as_str().substring_char(start, self.pos).to_owned();
            Ok(TokenKind::FloatLiteral(text))
        } else {
            let ghost run = self.src().subrange(start as int, e1 as int);
            let maxv: u64 = 0x7fff_ffff_ffff_ffff;
            let mut v: u64 = 0;
            let mut k = start;
            proof {
                assert(self.src().subrange(start as int, start as int) =~= Seq::<char>::empty());
            }
            while k < e1
                invariant
                    self.wf(),
                    self.src() == old(self).src(),
                    old(self).cursor() == start as int,
                    start < e1,
                    start <= k <= e1,
                    e1 <= self.src().len(),
                    e1 as int == digits_end(self.src(), start + 1),
                    self.cursor() == e1 as int,
                    !((e1 as int) < self.src().len() && self.src()[e1 as int] == '.' && (
                    e1 as int) + 1 < self.src().len() && is_digit_char(
                        self.src()[e1 as int + 1],
                    )),
                    forall|m: int| start <= m < e1 ==> is_digit_char(#[trigger] self.src()[m]),
                    maxv == i64::MAX as u64,
                    v <= maxv,
                    v == digits_val(self.src().subrange(start as int, k as int)),
                    run == self.src().subrange(start as int, e1 as int),
                decreases e1 - k,
            {
                let c = self.chars[k];
                proof {
                    assert(is_digit_char(self.src()[k as int]));
                }
                let d: u64 = (c as u32 - 0x30) as u64;
                let ghost pref = self.src().subrange(start as int, k as int);
                let ghost pref1 = self.src().subrange(start as int, k + 1 as int);
                proof {
                    assert(pref1.drop_last() =~= pref);
                    assert(pref1.last() == self.src()[k as int]);
                    assert(digits_val(pref1) == digits_val(pref) * 10 + digit_val(
                        self.src()[k as int],
                    ));
                }
                let wide: u128 = v as u128 * 10 + d as u128;
                if wide > maxv as u128 {
                    proof {
                        assert(digits_val(pref1) > i64::MAX as int);
                        assert(all_digits(run));
                        assert(run.subrange(0, k + 1 - start) =~= pref1);
                        lemma_digits_val_extends(run, k + 1 - start);
                        assert(digits_val(run) > i64::MAX as int);
                        assert(number_token(old(self).src(), old(self).cursor()) == Err::<
                            (TokenV, int),
                            LexError,
                        >(LexError::IntOutOfRange));
                    }
                    return Err(LexError::IntOutOfRange);
                }
                v = wide as u64;
                k = k + 1;
            }
            proof {
                assert(v == digits_val(run));
            }
            Ok(TokenKind::IntLiteral(v as i64))
        }
    }

    /// Scans a string literal body, starting at the opening quote, and
    /// produces its unescaped content.
    fn lex_string(&mut self) -> (r: Result<TokenKind, LexError>)
        requires
            old(self).wf(),
            old(self).cursor() < old(self).src().len(),
        ensures
            final(self).wf(),
            final(self).src() == old(self).src(),
            old(self).cursor() < final(self).cursor(),
            match r {
                Ok(t) => string_token(old(self).src(), old(self).cursor()) == Ok::<
                    (TokenV, int),
                    LexError,
                >((t@, final(self).cursor())),
                Err(e) => string_token(old(self).src(), old(self).cursor()) == Err::<
                    (TokenV, int),
                    LexError,
                >(e),
            },
    {
        self.pos = self.pos + 1;
        let mut out = String::new();
        proof {
            match str_body(self.src(), old(self).cursor() + 1) {
                Ok((rest, e)) => {
                    assert(out@.add(rest) =~= rest);
                },
                Err(_) => {},
            }
        }
        loop
            invariant
                self.wf(),
                self.src() == old(self).src(),
                old(self).cursor() + 1 <= self.cursor(),
                str_body(self.src(), old(self).cursor() + 1) == (match str_body(
                    self.src(),
                    self.cursor(),
                ) {
                    Ok((rest, e)) => Ok::<(Seq<char>, int), LexError>((out@.add(rest), e)),
                    Err(x) => Err::<(Seq<char>, int), LexError>(x),
                }),
            decreases self.src().len() - self.cursor(),
        {
            if self.pos >= self.len {
                return Err(LexError::UnterminatedString);
            }
            let c = self.chars[self.pos];
            self.pos = self.pos + 1;
            if c == '"' || c == '\'' {
                proof {
                    assert(out@.add(Seq::<char>::empty()) =~= out@);
                }
                return Ok(TokenKind::StringLiteral(out));
            }
            if c == '\\' {
                if self.pos >= self.len {
                    return Err(LexError::UnterminatedEscape);
                }
                let e = self.chars[self.pos];
                self.pos = self.pos + 1;
                let ch: char = match e {
                    'n' => '\n',
                    't' => '\t',
                    'r' => '\r',
                    '\\' => '\\',
                    '"' => '"',
                    '0' => '\0',
                    other => {
                        return Err(LexError::InvalidEscape(other));
                    },
                };
                let ghost out0 = out@;
                push_char(&mut out, ch);
                proof {
                    assert forall|rest: Seq<char>| true implies out0.add(
                        seq![ch].add(rest),
                    ) == out@.add(rest) by {
                        assert(out0.add(seq![ch].add(rest)) =~= out@.add(rest));
                    };
                }
            } else {
                let ghost out0 = out@;
                push_char(&mut out, c);
                proof {
                    assert forall|rest: Seq<char>| true implies out0.add(
                        seq![c].add(rest),
                    ) == out@.add(rest) by {
                        assert(out0.add(seq![c].add(rest)) =~= out@.add(rest));
                    };
                }
            }
        }
    }

    /// Scans the next token, skipping white space and line comments.
    pub fn next_token(&mut self) -> (r: Result<TokenKind, LexError>)
        requires
            old(self).wf(),
        ensures
            final(self).wf(),
            final(self).src() == old(self).src(),
            old(self).cursor() <= final(self).cursor(),
            final(self).cursor() <= final(self).src().len(),
            match r {
                Ok(t) => spec_next_token(old(self).src(), old(self).cursor()) == Ok::<
                    (TokenV, int),
                    LexError,
                >((t@, final(self).cursor())) && (t@ != TokenV::Eof ==> old(self).cursor()
                    < final(self).cursor()),
                Err(e) => spec_next_token(old(self).src(), old(self).cursor()) == Err::<
                    (TokenV, int),
                    LexError,
                >(e),
            },
    {
        loop
            invariant
                self.wf(),
                self.src() == old(self).src(),
                old(self).cursor() <= self.cursor(),
                spec_next_token(self.src(), old(self).cursor()) == spec_next_token(
                    self.src(),
                    self.cursor(),
                ),
            decreases self.src().len() - self.cursor(),
        {
            let ghost i = self.cursor();
            self.skip_whitespace();
            if self.pos >= self.len {
                return Ok(TokenKind::Eof);
            }
            let c = self.chars[self.pos];
            if char_is_ident_start(c) {
                let t = self.ident_or_kw();
                return Ok(t);
            }
            if char_is_digit(c) {
                return self.lex_number();
            }
            if c == '"' || c == '\'' {
                return self.lex_string();
            }
            if c == '/' && self.pos + 1 < self.len && self.chars[self.pos + 1] == '/' {
                self.pos = self.pos + 2;
                self.skip_line_comment();
                continue;
            }
            // Operators and punctuation, with two-character forms first.
            let two = self.pos + 1 < self.len;
            if c == '/' {
                if two && self.chars[self.pos + 1] == '=' {
                    self.pos = self.pos + 2;
                    return Ok(TokenKind::SlashEqual);
                }
                self.pos = self.pos + 1;
                return Ok(TokenKind::Slash);
            }
            if c == '+' {
                if two && self.chars[self.pos + 1] == '=' {
                    self.pos = self.pos + 2;
                    return Ok(TokenKind::PlusEqual);
                }
                self.pos = self.pos + 1;
                return Ok(TokenKind::Plus);
            }
            if c == '-' {
                if two && self.chars[self.pos + 1] == '=' {
                    self.pos = self.pos + 2;
                    return Ok(TokenKind::MinusEqual);
                }
                self.pos = self.pos + 1;
                return Ok(TokenKind::Minus);
            }
            if c == '*' {
                if two && self.chars[self.pos + 1] == '=' {
                    self.pos = self.pos + 2;
                    return Ok(TokenKind::StarEqual);
                }
                self.pos = self.pos + 1;
                return Ok(TokenKind::Star);
            }
            if c == '%' {
                self.pos = self.pos + 1;
                return Ok(TokenKind::Percent);
            }
            if c == '=' {
                if two && self.chars[self.pos + 1] == '=' {
                    self.pos = self.pos + 2;
                    return Ok(TokenKind::EqEq);
                }
                if two && self.chars[self.pos + 1] == '>' {
                    self.pos = self.pos + 2;
                    return Ok(TokenKind::FatArrow);
                }
                self.pos = self.pos + 1;
                return Ok(TokenKind::Equal);
            }
            if c == '!' {
                if two && self.chars[self.pos + 1] == '=' {
                    self.pos = self.pos + 2;
                    return Ok(TokenKind::BangEq);
                }
                self.pos = self.pos + 1;
                return Ok(TokenKind::Bang);
            }
            if c == '<' {
                if two && self.chars[self.pos + 1] == '=' {
                    self.pos = self.pos + 2;
                    return Ok(TokenKind::LessEq);
                }
                self.pos = self.pos + 1;
                return Ok(TokenKind::Less);
            }
            if c == '>' {
                if two && self.chars[self.pos + 1] == '=' {
                    self.pos = self.pos + 2;
                    return Ok(TokenKind::GreaterEq);
                }
                self.pos = self.pos + 1;
                return Ok(TokenKind::Greater);
            }
            if c == '&' {
                if two && self.chars[self.pos + 1] == '&' {
                    self.pos = self.pos + 2;
                    return Ok(TokenKind::AndAnd);
                }
                return Err(LexError::LoneOperator('&'));
            }
            if c == '|' {
                if two && self.chars[self.pos + 1] == '|' {
                    self.pos = self.pos + 2;
                    return Ok(TokenKind::OrOr);
                }
                return Err(LexError::LoneOperator('|'));
            }
            if c == '.' {
                self.pos = self.pos + 1;
                return Ok(TokenKind::Dot);
            }
            if c == '(' {
                self.pos = self.pos + 1;
                return Ok(TokenKind::LParen);
            }
            if c == ')' {
                self.pos = self.pos + 1;
                return Ok(TokenKind::RParen);
            }
            if c == '{' {
                self.pos = self.pos + 1;
                return Ok(TokenKind::LBrace);
            }
            if c == '}' {
                self.pos = self.pos + 1;
                return Ok(TokenKind::RBrace);
            }
            if c == '[' {
                self.pos = self.pos + 1;
                return Ok(TokenKind::LBracket);
            }
            if c == ']' {
                self.pos = self.pos + 1;
                return Ok(TokenKind::RBracket);
            }
            if c == ',' {
                self.pos = self.pos + 1;
                return Ok(TokenKind::Comma);
            }
            if c == ';' {
                self.pos = self.pos + 1;
                return Ok(TokenKind::Semicolon);
            }
            if c == ':' {
                self.pos = self.pos + 1;
                return Ok(TokenKind::Colon);
            }
            return Err(LexError::UnexpectedChar(c));
        }
    }
}

/// Turns a whole source text into its token sequence, which ends in exactly
/// one end-of-input token, or fails with the first fatal lexical error.
pub fn lex(content: &str) -> (r: Result<Vec<TokenKind>, LexError>)
    ensures
        match r {
            Ok(v) => spec_lex(content@) == Ok::<Seq<TokenV>, LexError>(tokens_view(v@))
                && v@.len() >= 1 && v@.last()@ == TokenV::Eof && forall|k: int|
                0 <= k < v@.len() - 1 ==> v@[k]@ != TokenV::Eof,
            Err(e) => spec_lex(content@) == Err::<Seq<TokenV>, LexError>(e),
        },
{
    let mut lexer = Lexer::new(content);
    let mut tokens: Vec<TokenKind> = Vec::new();
    proof {
        assert(tokens_view(tokens@) =~= Seq::<TokenV>::empty());
        match spec_lex_from(content@, 0) {
            Ok(rest) => {
                assert(tokens_view(tokens@).add(rest) =~= rest);
            },
            Err(_) => {},
        }
    }
    loop
        invariant
            lexer.wf(),
            lexer.src() == content@,
            spec_lex_from(content@, 0) == (match spec_lex_from(content@, lexer.cursor()) {
                Ok(rest) => Ok::<Seq<TokenV>, LexError>(tokens_view(tokens@).add(rest)),
                Err(x) => Err::<Seq<TokenV>, LexError>(x),
            }),
        decreases content@.len() - lexer.cursor(),
    {
        let ghost i = lexer.cursor();
        let ghost toks0 = tokens@;
        let t = match lexer.next_token() {
            Ok(t) => t,
            Err(e) => {
                return Err(e);
            },
        };
        let ghost tv = t@;
        let done = matches!(t, TokenKind::Eof);
        proof {
            if tv == TokenV::Eof {
                assert(spec_lex_from(content@, i) == Ok::<Seq<TokenV>, LexError>(
                    seq![TokenV::Eof],
                ));
            }
        }
        tokens.push(t);
        proof {
            assert(tokens_view(tokens@) =~= tokens_view(toks0).push(tv));
        }
        if done {
            proof {
                assert(tokens_view(toks0).add(seq![TokenV::Eof]) =~= tokens_view(tokens@));
                lemma_lex_from_terminated(content@, 0);
                assert(spec_lex_from(content@, 0) == Ok::<Seq<TokenV>, LexError>(
                    tokens_view(tokens@),
                ));
                assert(tokens_view(tokens@).len() == tokens@.len());
                assert(tokens@.last()@ == tokens_view(tokens@).last());
                assert forall|k: int| 0 <= k < tokens@.len() - 1 implies tokens@[k]@
                    != TokenV::Eof by {
                    assert(tokens_view(tokens@)[k] == tokens@[k]@);
                    assert(tokens_view(tokens@)[k] != TokenV::Eof);
                };
            }
            return Ok(tokens);
        }
        proof {
            assert(i < content@.len());
            assert(clamp_pos(lexer.cursor(), i + 1, content@.len() as int) == lexer.cursor());
            assert forall|rest: Seq<TokenV>| true implies tokens_view(toks0).add(
                seq![tv].add(rest),
            ) == tokens_view(tokens@).add(rest) by {
                assert(tokens_view(toks0).add(seq![tv].add(rest)) =~= tokens_view(
                    tokens@,
                ).add(rest));
            };
        }
    }
}

} // verus!
