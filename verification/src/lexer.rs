//! Byte-level tokenizer.
//!
//! The tokenizer turns a byte slice of source text into a finite sequence of
//! tokens whose concatenated text reconstructs the input exactly: trivia
//! (whitespace and comments) is emitted, never discarded. A trailing comment
//! runs up to, but never includes, the line terminator that ends its line;
//! the terminator opens the following whitespace token. Malformed input
//! never stops the scan; it yields `TokenError` tokens and scanning resumes.
//!
//! The whole scan is modelled by the spec function [`lex_spec`], and
//! [`lemma_lex_lossless`] proves that concatenating the text of every token
//! of `lex_spec(s)` gives back `s` itself.

use vstd::prelude::*;

use crate::kinds::SyntaxKind;

verus! {

// ---------------------------------------------------------------------------
// Byte classification
// ---------------------------------------------------------------------------

/// Space, carriage return or line feed.
pub open spec fn spec_is_whitespace(b: u8) -> bool {
    b == 32 || b == 13 || b == 10
}

/// Space, carriage return or line feed.
#[verifier::when_used_as_spec(spec_is_whitespace)]
pub fn is_whitespace(b: u8) -> (r: bool)
    ensures
        r == spec_is_whitespace(b),
{
    b == 32 || b == 13 || b == 10
}

/// Carriage return or line feed: the bytes that open a line terminator
/// sequence (`\n`, `\r`, or `\r\n`).
pub open spec fn spec_is_line_terminator_sequence_start(b: u8) -> bool {
    b == 13 || b == 10
}

/// Carriage return or line feed.
#[verifier::when_used_as_spec(spec_is_line_terminator_sequence_start)]
pub fn is_line_terminator_sequence_start(b: u8) -> (r: bool)
    ensures
        r == spec_is_line_terminator_sequence_start(b),
{
    b == 13 || b == 10
}

/// ASCII letter, `$` or `_`: the bytes that may open an identifier.
pub open spec fn spec_is_id_start(b: u8) -> bool {
    (97 <= b && b <= 122) || (65 <= b && b <= 90) || b == 36 || b == 95
}

/// ASCII letter, `$` or `_`.
#[verifier::when_used_as_spec(spec_is_id_start)]
pub fn is_id_start(b: u8) -> (r: bool)
    ensures
        r == spec_is_id_start(b),
{
    (97 <= b && b <= 122) || (65 <= b && b <= 90) || b == 36 || b == 95
}

/// ASCII letter, digit, `$` or `_`: the bytes that may continue an identifier.
pub open spec fn spec_is_id_continue(b: u8) -> bool {
    spec_is_id_start(b) || (48 <= b && b <= 57)
}

/// ASCII letter, digit, `$` or `_`.
#[verifier::when_used_as_spec(spec_is_id_continue)]
pub fn is_id_continue(b: u8) -> (r: bool)
    ensures
        r == spec_is_id_continue(b),
{
    is_id_start(b) || (48 <= b && b <= 57)
}

// ---------------------------------------------------------------------------
// Where each token class ends
// ---------------------------------------------------------------------------

/// First position at or after `i` that does not continue an identifier.
pub open spec fn id_end(s: Seq<u8>, i: int) -> int
    decreases s.len() - i,
{
    if i < 0 || i >= s.len() || !spec_is_id_continue(s[i]) {
        i
    } else {
        id_end(s, i + 1)
    }
}

/// First position at or after `i` that is not whitespace.
pub open spec fn whitespace_end(s: Seq<u8>, i: int) -> int
    decreases s.len() - i,
{
    if i < 0 || i >= s.len() || !spec_is_whitespace(s[i]) {
        i
    } else {
        whitespace_end(s, i + 1)
    }
}

/// Where a trailing comment whose text starts before `i` ends: at the next
/// line terminator byte — which is not part of the comment, and opens the
/// following whitespace token instead — or at the end of input.
pub open spec fn comment_end(s: Seq<u8>, i: int) -> int
    decreases s.len() - i,
{
    if i < 0 || i >= s.len() {
        s.len() as int
    } else if spec_is_line_terminator_sequence_start(s[i]) {
        i
    } else {
        comment_end(s, i + 1)
    }
}

/// Where a double-quoted string literal whose opening quote sits just before
/// `i` ends: just after the first unescaped closing quote, or `None` when the
/// literal is unterminated. A backslash escapes the next byte unconditionally.
pub open spec fn str_body_end(s: Seq<u8>, i: int) -> Option<int>
    decreases s.len() - i,
{
    if i < 0 || i >= s.len() {
        None
    } else if s[i] == 34 {
        Some(i + 1)
    } else if s[i] == 92 {
        if i + 1 >= s.len() {
            None
        } else {
            str_body_end(s, i + 2)
        }
    } else {
        str_body_end(s, i + 1)
    }
}

/// Whether `s` holds a line terminator byte anywhere in `[i, e)`.
pub open spec fn has_line_terminator(s: Seq<u8>, i: int, e: int) -> bool {
    exists|j: int| i <= j < e && spec_is_line_terminator_sequence_start(#[trigger] s[j])
}

/// The kind of an identifier run `s[i..e]`: one of the reserved words
/// `this`, `throw`, `true`, `try`, or else a plain identifier. Because `e` is
/// the end of the maximal identifier run, a reserved word directly followed
/// by an identifier byte (such as `thisx`) never matches here.
pub open spec fn keyword_kind(s: Seq<u8>, i: int, e: int) -> SyntaxKind {
    if e - i == 4 && s[i] == 116 && s[i + 1] == 104 && s[i + 2] == 105 && s[i + 3] == 115 {
        SyntaxKind::TokenThis
    } else if e - i == 5 && s[i] == 116 && s[i + 1] == 104 && s[i + 2] == 114 && s[i + 3] == 111
        && s[i + 4] == 119 {
        SyntaxKind::TokenThrow
    } else if e - i == 4 && s[i] == 116 && s[i + 1] == 114 && s[i + 2] == 117 && s[i + 3] == 101 {
        SyntaxKind::TokenTrue
    } else if e - i == 3 && s[i] == 116 && s[i + 1] == 114 && s[i + 2] == 121 {
        SyntaxKind::TokenTry
    } else {
        SyntaxKind::TokenIdent
    }
}

/// The punctuator starting at `i`, with the position just after it, matching
/// greedily so that `===` wins over `==` and `==` over `=`.
pub open spec fn punctuator_at(s: Seq<u8>, i: int) -> Option<(SyntaxKind, int)> {
    let b = s[i];
    if b == 59 {  // ;
        Some((SyntaxKind::TokenSemicolon, i + 1))
    } else if b == 58 {  // :
        Some((SyntaxKind::TokenColon, i + 1))
    } else if b == 44 {  // ,
        Some((SyntaxKind::TokenComa, i + 1))
    } else if b == 123 {  // {
        Some((SyntaxKind::TokenOpenBrace, i + 1))
    } else if b == 125 {  // }
        Some((SyntaxKind::TokenCloseBrace, i + 1))
    } else if b == 91 {  // [
        Some((SyntaxKind::TokenOpenBracket, i + 1))
    } else if b == 93 {  // ]
        Some((SyntaxKind::TokenCloseBracket, i + 1))
    } else if b == 40 {  // (
        Some((SyntaxKind::TokenOpenParen, i + 1))
    } else if b == 41 {  // )
        Some((SyntaxKind::TokenCloseParen, i + 1))
    } else if b == 61 {  // =
        if i + 2 < s.len() && s[i + 1] == 61 && s[i + 2] == 61 {
            Some((SyntaxKind::TokenEqEqEq, i + 3))
        } else if i + 1 < s.len() && s[i + 1] == 61 {
            Some((SyntaxKind::TokenEqEq, i + 2))
        } else {
            Some((SyntaxKind::TokenEq, i + 1))
        }
    } else if b == 33 {  // !
        if i + 2 < s.len() && s[i + 1] == 61 && s[i + 2] == 61 {
            Some((SyntaxKind::TokenNotEqEq, i + 3))
        } else if i + 1 < s.len() && s[i + 1] == 61 {
            Some((SyntaxKind::TokenNotEq, i + 2))
        } else {
            Some((SyntaxKind::TokenExcl, i + 1))
        }
    } else if b == 126 {  // ~
        Some((SyntaxKind::TokenTilde, i + 1))
    } else if b == 63 {  // ?
        Some((SyntaxKind::TokenQuestion, i + 1))
    } else if b == 60 {  // <
        if i + 1 < s.len() && s[i + 1] == 60 {
            Some((SyntaxKind::TokenLtLt, i + 2))
        } else if i + 1 < s.len() && s[i + 1] == 61 {
            Some((SyntaxKind::TokenLtEq, i + 2))
        } else {
            Some((SyntaxKind::TokenLt, i + 1))
        }
    } else if b == 62 {  // >
        if i + 2 < s.len() && s[i + 1] == 62 && s[i + 2] == 62 {
            Some((SyntaxKind::TokenGtGtGt, i + 3))
        } else if i + 1 < s.len() && s[i + 1] == 62 {
            Some((SyntaxKind::TokenGtGt, i + 2))
        } else if i + 1 < s.len() && s[i + 1] == 61 {
            Some((SyntaxKind::TokenGtEq, i + 2))
        } else {
            Some((SyntaxKind::TokenGt, i + 1))
        }
    } else if b == 43 {  // +
        if i + 1 < s.len() && s[i + 1] == 43 {
            Some((SyntaxKind::TokenPlusPlus, i + 2))
        } else {
            Some((SyntaxKind::TokenPlus, i + 1))
        }
    } else if b == 45 {  // -
        if i + 1 < s.len() && s[i + 1] == 45 {
            Some((SyntaxKind::TokenMinusMinus, i + 2))
        } else {
            Some((SyntaxKind::TokenMinus, i + 1))
        }
    } else if b == 124 {  // |
        if i + 1 < s.len() && s[i + 1] == 124 {
            Some((SyntaxKind::TokenPipePipe, i + 2))
        } else {
            Some((SyntaxKind::TokenPipe, i + 1))
        }
    } else if b == 38 {  // &
        if i + 1 < s.len() && s[i + 1] == 38 {
            Some((SyntaxKind::TokenAmpAmp, i + 2))
        } else {
            Some((SyntaxKind::TokenAmp, i + 1))
        }
    } else if b == 37 {  // %
        Some((SyntaxKind::TokenPercent, i + 1))
    } else if b == 42 {  // *
        Some((SyntaxKind::TokenStar, i + 1))
    } else if b == 94 {  // ^
        Some((SyntaxKind::TokenCaret, i + 1))
    } else if b == 46 {  // .
        Some((SyntaxKind::TokenDot, i + 1))
    } else {
        None
    }
}

/// The kind and end position of the token starting at `i`. A byte that opens
/// no recognized token, and an unterminated string literal, both yield
/// `TokenError`; the unterminated literal consumes the rest of the input, any
/// other error byte is consumed alone.
pub open spec fn token_at(s: Seq<u8>, i: int) -> (SyntaxKind, int)
    recommends
        0 <= i < s.len(),
{
    let b = s[i];
    if spec_is_id_start(b) {
        let e = id_end(s, i + 1);
        (keyword_kind(s, i, e), e)
    } else if spec_is_whitespace(b) {
        let e = whitespace_end(s, i + 1);
        (
            if has_line_terminator(s, i, e) {
                SyntaxKind::TokenMultilineWhitespace
            } else {
                SyntaxKind::TokenUnilineWhitespace
            },
            e,
        )
    } else if b == 47 {  // /
        if i + 1 < s.len() && s[i + 1] == 47 {
            (SyntaxKind::TokenTrailingComment, comment_end(s, i + 2))
        } else {
            (SyntaxKind::TokenSlash, i + 1)
        }
    } else if b == 34 {  // "
        match str_body_end(s, i + 1) {
            Some(e) => (SyntaxKind::TokenStrLit, e),
            None => (SyntaxKind::TokenError, s.len() as int),
        }
    } else {
        match punctuator_at(s, i) {
            Some(p) => p,
            None => (SyntaxKind::TokenError, i + 1),
        }
    }
}

proof fn lemma_id_end_bounds(s: Seq<u8>, i: int)
    requires
        0 <= i <= s.len(),
    ensures
        i <= id_end(s, i) <= s.len(),
    decreases s.len() - i,
{
    if i < s.len() && spec_is_id_continue(s[i]) {
        lemma_id_end_bounds(s, i + 1);
    }
}

proof fn lemma_whitespace_end_bounds(s: Seq<u8>, i: int)
    requires
        0 <= i <= s.len(),
    ensures
        i <= whitespace_end(s, i) <= s.len(),
    decreases s.len() - i,
{
    if i < s.len() && spec_is_whitespace(s[i]) {
        lemma_whitespace_end_bounds(s, i + 1);
    }
}

proof fn lemma_comment_end_bounds(s: Seq<u8>, i: int)
    requires
        0 <= i <= s.len(),
    ensures
        i <= comment_end(s, i) <= s.len(),
    decreases s.len() - i,
{
    if i < s.len() && !spec_is_line_terminator_sequence_start(s[i]) {
        lemma_comment_end_bounds(s, i + 1);
    }
}

proof fn lemma_str_body_end_bounds(s: Seq<u8>, i: int)
    requires
        0 <= i <= s.len(),
    ensures
        str_body_end(s, i) matches Some(e) ==> i < e <= s.len(),
    decreases s.len() - i,
{
    if i < s.len() && s[i] != 34 {
        if s[i] == 92 {
            if i + 1 < s.len() {
                lemma_str_body_end_bounds(s, i + 2);
            }
        } else {
            lemma_str_body_end_bounds(s, i + 1);
        }
    }
}

/// Every token starting inside the input consumes at least one byte and
/// never runs past the end of the input.
proof fn lemma_token_at_bounds(s: Seq<u8>, i: int)
    requires
        0 <= i < s.len(),
    ensures
        i < token_at(s, i).1 <= s.len(),
{
    lemma_id_end_bounds(s, i + 1);
    lemma_whitespace_end_bounds(s, i + 1);
    if i + 2 <= s.len() {
        lemma_comment_end_bounds(s, i + 2);
    }
    lemma_str_body_end_bounds(s, i + 1);
}

// ---------------------------------------------------------------------------
// The whole scan
// ---------------------------------------------------------------------------

/// The token sequence of `s` from position `i` on: each element is the kind
/// and the exact text of one token.
pub open spec fn tokens_from(s: Seq<u8>, i: int) -> Seq<(SyntaxKind, Seq<u8>)>
    decreases s.len() - i,
    via tokens_from_decreases
{
    if i < 0 || i >= s.len() {
        Seq::empty()
    } else {
        let (k, e) = token_at(s, i);
        seq![(k, s.subrange(i, e))] + tokens_from(s, e)
    }
}

#[via_fn]
proof fn tokens_from_decreases(s: Seq<u8>, i: int) {
    if 0 <= i && i < s.len() {
        lemma_token_at_bounds(s, i);
    }
}

/// The full token sequence of the input `s`.
pub open spec fn lex_spec(s: Seq<u8>) -> Seq<(SyntaxKind, Seq<u8>)> {
    tokens_from(s, 0)
}

/// The concatenation of the text of every token of `ts`.
pub open spec fn concat_token_texts(ts: Seq<(SyntaxKind, Seq<u8>)>) -> Seq<u8>
    decreases ts.len(),
{
    if ts.len() == 0 {
        Seq::empty()
    } else {
        ts[0].1 + concat_token_texts(ts.drop_first())
    }
}

proof fn lemma_tokens_from_lossless(s: Seq<u8>, i: int)
    requires
        0 <= i <= s.len(),
    ensures
        concat_token_texts(tokens_from(s, i)) == s.subrange(i, s.len() as int),
    decreases s.len() - i,
{
    if i >= s.len() {
        assert(s.subrange(i, s.len() as int) =~= Seq::<u8>::empty());
    } else {
        let (k, e) = token_at(s, i);
        lemma_token_at_bounds(s, i);
        lemma_tokens_from_lossless(s, e);
        let first = seq![(k, s.subrange(i, e))];
        let rest = tokens_from(s, e);
        assert((first + rest).drop_first() =~= rest);
        assert((first + rest)[0] == (k, s.subrange(i, e)));
        assert(s.subrange(i, e) + s.subrange(e, s.len() as int) =~= s.subrange(
            i,
            s.len() as int,
        ));
    }
}

/// Losslessness: concatenating the text of every token the tokenizer yields
/// for `s` gives back `s` itself, for every input.
pub proof fn lemma_lex_lossless(s: Seq<u8>)
    ensures
        concat_token_texts(lex_spec(s)) == s,
{
    lemma_tokens_from_lossless(s, 0);
    assert(s.subrange(0, s.len() as int) =~= s);
}

// ---------------------------------------------------------------------------
// Executable tokenizer
// ---------------------------------------------------------------------------

/// One token: its kind and its exact text, owned. Equality is structural.
#[derive(Debug, Clone, PartialEq, Eq, Hash)]
pub struct LexerToken {
    pub kind: SyntaxKind,
    pub text: Vec<u8>,
}

/// The kind and text view of each token of `ts`.
pub open spec fn token_models(ts: Seq<LexerToken>) -> Seq<(SyntaxKind, Seq<u8>)> {
    ts.map_values(|t: LexerToken| (t.kind, t.text@))
}

/// Copies `s[a..b]` into a fresh vector.
fn copy_range(s: &[u8], a: usize, b: usize) -> (r: Vec<u8>)
    requires
        a <= b <= s@.len(),
    ensures
        r@ == s@.subrange(a as int, b as int),
{
    let mut r: Vec<u8> = Vec::new();
    let mut j: usize = a;
    while j < b
        invariant
            a <= j <= b <= s@.len(),
            r@ == s@.subrange(a as int, j as int),
        decreases b - j,
    {
        r.push(s[j]);
        j = j + 1;
        assert(r@ =~= s@.subrange(a as int, j as int));
    }
    r
}

/// Consumes an identifier run: returns the first position at or after `i`
/// that does not continue an identifier.
pub fn end_id(s: &[u8], i: usize) -> (e: usize)
    requires
        i <= s@.len(),
    ensures
        e == id_end(s@, i as int),
        i <= e <= s@.len(),
{
    let mut j: usize = i;
    while j < s.len() && is_id_continue(s[j])
        invariant
            i <= j <= s@.len(),
            id_end(s@, i as int) == id_end(s@, j as int),
        decreases s@.len() - j,
    {
        j = j + 1;
    }
    j
}

/// Consumes a whitespace run: returns the first position at or after `i` that
/// is not whitespace, together with whether the run up to there holds a line
/// terminator.
pub fn end_whitespace(s: &[u8], i: usize) -> (r: (usize, bool))
    requires
        i <= s@.len(),
    ensures
        r.0 == whitespace_end(s@, i as int),
        i <= r.0 <= s@.len(),
        r.1 == has_line_terminator(s@, i as int, r.0 as int),
{
    let mut j: usize = i;
    let mut multiline: bool = false;
    while j < s.len() && is_whitespace(s[j])
        invariant
            i <= j <= s@.len(),
            whitespace_end(s@, i as int) == whitespace_end(s@, j as int),
            multiline == has_line_terminator(s@, i as int, j as int),
        decreases s@.len() - j,
    {
        if is_line_terminator_sequence_start(s[j]) {
            multiline = true;
        }
        j = j + 1;
    }
    (j, multiline)
}

/// Consumes a trailing comment body: everything up to, but not including,
/// the next line terminator, or to the end of input.
pub fn end_trailing_comment(s: &[u8], i: usize) -> (e: usize)
    requires
        i <= s@.len(),
    ensures
        e == comment_end(s@, i as int),
        i <= e <= s@.len(),
{
    let mut j: usize = i;
    while j < s.len() && !is_line_terminator_sequence_start(s[j])
        invariant
            i <= j <= s@.len(),
            comment_end(s@, i as int) == comment_end(s@, j as int),
        decreases s@.len() - j,
    {
        j = j + 1;
    }
    j
}

/// Consumes a double-quoted string literal body, the opening quote already
/// consumed. Yields `TokenStrLit` and the position just after the closing
/// quote, or `TokenError` and the end of input when the literal never closes.
pub fn end_double_quoted_string(s: &[u8], i: usize) -> (r: (SyntaxKind, usize))
    requires
        i <= s@.len(),
    ensures
        match str_body_end(s@, i as int) {
            Some(e) => r == (SyntaxKind::TokenStrLit, e as usize),
            None => r == (SyntaxKind::TokenError, s@.len() as usize),
        },
{
    let mut j: usize = i;
    loop
        invariant
            i <= j <= s@.len(),
            str_body_end(s@, i as int) == str_body_end(s@, j as int),
        ensures
            str_body_end(s@, i as int) == str_body_end(s@, j as int),
            j <= s@.len(),
            j >= s@.len() || s@[j as int] == 34,
        decreases s@.len() - j,
    {
        if j >= s.len() {
            break ;
        }
        if s[j] == 34 {
            break ;
        }
        if s[j] == 92 {
            if j + 1 >= s.len() {
                proof {
                    assert(str_body_end(s@, j as int) is None);
                }
                return (SyntaxKind::TokenError, s.len());
            }
            j = j + 2;
        } else {
            j = j + 1;
        }
    }
    if j >= s.len() {
        (SyntaxKind::TokenError, s.len())
    } else {
        (SyntaxKind::TokenStrLit, j + 1)
    }
}

/// Classifies the identifier run `s[i..e]` as a reserved word or a plain
/// identifier.
pub fn end_id_or_keyword(s: &[u8], i: usize, e: usize) -> (k: SyntaxKind)
    requires
        i <= e <= s@.len(),
    ensures
        k == keyword_kind(s@, i as int, e as int),
{
    let n = e - i;
    if n == 4 && s[i] == 116 && s[i + 1] == 104 && s[i + 2] == 105 && s[i + 3] == 115 {
        SyntaxKind::TokenThis
    } else if n == 5 && s[i] == 116 && s[i + 1] == 104 && s[i + 2] == 114 && s[i + 3] == 111 && s[i
        + 4] == 119 {
        SyntaxKind::TokenThrow
    } else if n == 4 && s[i] == 116 && s[i + 1] == 114 && s[i + 2] == 117 && s[i + 3] == 101 {
        SyntaxKind::TokenTrue
    } else if n == 3 && s[i] == 116 && s[i + 1] == 114 && s[i + 2] == 121 {
        SyntaxKind::TokenTry
    } else {
        SyntaxKind::TokenIdent
    }
}

/// Scans the punctuator starting at `i`, greedily.
fn scan_punctuator(s: &[u8], i: usize) -> (r: Option<(SyntaxKind, usize)>)
    requires
        i < s@.len(),
    ensures
        match punctuator_at(s@, i as int) {
            Some(p) => r matches Some(q) && q.0 == p.0 && q.1 == p.1,
            None => r is None,
        },
{
    let b = s[i];
    match b {
        59 => Some((SyntaxKind::TokenSemicolon, i + 1)),
        58 => Some((SyntaxKind::TokenColon, i + 1)),
        44 => Some((SyntaxKind::TokenComa, i + 1)),
        123 => Some((SyntaxKind::TokenOpenBrace, i + 1)),
        125 => Some((SyntaxKind::TokenCloseBrace, i + 1)),
        91 => Some((SyntaxKind::TokenOpenBracket, i + 1)),
        93 => Some((SyntaxKind::TokenCloseBracket, i + 1)),
        40 => Some((SyntaxKind::TokenOpenParen, i + 1)),
        41 => Some((SyntaxKind::TokenCloseParen, i + 1)),
        61 => {
            if s.len() - i > 2 && s[i + 1] == 61 && s[i + 2] == 61 {
                Some((SyntaxKind::TokenEqEqEq, i + 3))
            } else if i + 1 < s.len() && s[i + 1] == 61 {
                Some((SyntaxKind::TokenEqEq, i + 2))
            } else {
                Some((SyntaxKind::TokenEq, i + 1))
            }
        },
        33 => {
            if s.len() - i > 2 && s[i + 1] == 61 && s[i + 2] == 61 {
                Some((SyntaxKind::TokenNotEqEq, i + 3))
            } else if i + 1 < s.len() && s[i + 1] == 61 {
                Some((SyntaxKind::TokenNotEq, i + 2))
            } else {
                Some((SyntaxKind::TokenExcl, i + 1))
            }
        },
        126 => Some((SyntaxKind::TokenTilde, i + 1)),
        63 => Some((SyntaxKind::TokenQuestion, i + 1)),
        60 => {
            if i + 1 < s.len() && s[i + 1] == 60 {
                Some((SyntaxKind::TokenLtLt, i + 2))
            } else if i + 1 < s.len() && s[i + 1] == 61 {
                Some((SyntaxKind::TokenLtEq, i + 2))
            } else {
                Some((SyntaxKind::TokenLt, i + 1))
            }
        },
        62 => {
            if s.len() - i > 2 && s[i + 1] == 62 && s[i + 2] == 62 {
                Some((SyntaxKind::TokenGtGtGt, i + 3))
            } else if i + 1 < s.len() && s[i + 1] == 62 {
                Some((SyntaxKind::TokenGtGt, i + 2))
            } else if i + 1 < s.len() && s[i + 1] == 61 {
                Some((SyntaxKind::TokenGtEq, i + 2))
            } else {
                Some((SyntaxKind::TokenGt, i + 1))
            }
        },
        43 => {
            if i + 1 < s.len() && s[i + 1] == 43 {
                Some((SyntaxKind::TokenPlusPlus, i + 2))
            } else {
                Some((SyntaxKind::TokenPlus, i + 1))
            }
        },
        45 => {
            if i + 1 < s.len() && s[i + 1] == 45 {
                Some((SyntaxKind::TokenMinusMinus, i + 2))
            } else {
                Some((SyntaxKind::TokenMinus, i + 1))
            }
        },
        124 => {
            if i + 1 < s.len() && s[i + 1] == 124 {
                Some((SyntaxKind::TokenPipePipe, i + 2))
            } else {
                Some((SyntaxKind::TokenPipe, i + 1))
            }
        },
        38 => {
            if i + 1 < s.len() && s[i + 1] == 38 {
                Some((SyntaxKind::TokenAmpAmp, i + 2))
            } else {
                Some((SyntaxKind::TokenAmp, i + 1))
            }
        },
        37 => Some((SyntaxKind::TokenPercent, i + 1)),
        42 => Some((SyntaxKind::TokenStar, i + 1)),
        94 => Some((SyntaxKind::TokenCaret, i + 1)),
        46 => Some((SyntaxKind::TokenDot, i + 1)),
        _ => None,
    }
}

/// Scans the single token starting at `i`: its kind and its end position.
pub fn scan_token(s: &[u8], i: usize) -> (r: (SyntaxKind, usize))
    requires
        i < s@.len(),
    ensures
        r.0 == token_at(s@, i as int).0,
        r.1 == token_at(s@, i as int).1,
        i < r.1 <= s@.len(),
{
    proof {
        lemma_token_at_bounds(s@, i as int);
    }
    let b = s[i];
    if is_id_start(b) {
        let e = end_id(s, i + 1);
        (end_id_or_keyword(s, i, e), e)
    } else if is_whitespace(b) {
        let (e, multiline) = end_whitespace(s, i + 1);
        proof {
            if spec_is_line_terminator_sequence_start(s@[i as int]) {
                assert(has_line_terminator(s@, i as int, e as int));
            } else {
                assert(has_line_terminator(s@, i as int, e as int) == has_line_terminator(
                    s@,
                    i as int + 1,
                    e as int,
                ));
            }
        }
        let kind = if is_line_terminator_sequence_start(b) || multiline {
            SyntaxKind::TokenMultilineWhitespace
        } else {
            SyntaxKind::TokenUnilineWhitespace
        };
        (kind, e)
    } else if b == 47 {
        if i + 1 < s.len() && s[i + 1] == 47 {
            (SyntaxKind::TokenTrailingComment, end_trailing_comment(s, i + 2))
        } else {
            (SyntaxKind::TokenSlash, i + 1)
        }
    } else if b == 34 {
        end_double_quoted_string(s, i + 1)
    } else {
        match scan_punctuator(s, i) {
            Some(p) => p,
            None => (SyntaxKind::TokenError, i + 1),
        }
    }
}

/// Tokenizes the whole input. The result is exactly [`lex_spec`] of the
/// input: every token's kind and text is pinned down, and by
/// [`lemma_lex_lossless`] the concatenated text of the result is the input.
pub fn lex(text: &[u8]) -> (r: Vec<LexerToken>)
    ensures
        token_models(r@) == lex_spec(text@),
{
    let ghost s = text@;
    let mut r: Vec<LexerToken> = Vec::new();
    let mut pos: usize = 0;
    while pos < text.len()
        invariant
            pos <= s.len(),
            text@ == s,
            token_models(r@) + tokens_from(s, pos as int) =~= tokens_from(s, 0),
        decreases s.len() - pos,
    {
        let (kind, e) = scan_token(text, pos);
        let tok = LexerToken { kind, text: copy_range(text, pos, e) };
        proof {
            let m = (tok.kind, tok.text@);
            assert(token_models(r@.push(tok)) =~= token_models(r@) + seq![m]);
            assert(tokens_from(s, pos as int) == seq![m] + tokens_from(s, e as int));
        }
        r.push(tok);
        pos = e;
        proof {
            assert(token_models(r@) + tokens_from(s, pos as int) =~= tokens_from(s, 0));
        }
    }
    proof {
        assert(tokens_from(s, pos as int) =~= Seq::<(SyntaxKind, Seq<u8>)>::empty());
        assert(token_models(r@) =~= token_models(r@) + tokens_from(s, pos as int));
    }
    r
}

/// A restartable tokenizer over an owned input buffer: [`Lexer::next`] yields
/// the tokens of [`lex_spec`] of the buffer, in order.
#[derive(Debug, Clone)]
pub struct Lexer {
    text: Vec<u8>,
    pos: usize,
}

impl Lexer {
    /// The input buffer being tokenized.
    pub closed spec fn text_spec(&self) -> Seq<u8> {
        self.text@
    }

    /// The position scanning has reached.
    pub closed spec fn pos_spec(&self) -> int {
        self.pos as int
    }

    /// The scan position never runs past the end of the input.
    pub open spec fn wf(&self) -> bool {
        0 <= self.pos_spec() <= self.text_spec().len()
    }

    /// Starts a tokenizer at the beginning of `text`.
    pub fn new(text: Vec<u8>) -> (r: Lexer)
        ensures
            r.text_spec() == text@,
            r.pos_spec() == 0,
            r.wf(),
    {
        Lexer { text, pos: 0 }
    }

    /// Yields the next token, or `None` once the input is exhausted. The
    /// token returned is exactly the head of `tokens_from` at the current
    /// position.
    pub fn next(&mut self) -> (r: Option<LexerToken>)
        requires
            old(self).wf(),
        ensures
            final(self).wf(),
            final(self).text_spec() == old(self).text_spec(),
            old(self).pos_spec() < old(self).text_spec().len() ==> {
                let s = old(self).text_spec();
                let i = old(self).pos_spec();
                &&& r matches Some(t)
                &&& t.kind == token_at(s, i).0
                &&& t.text@ == s.subrange(i, token_at(s, i).1)
                &&& final(self).pos_spec() == token_at(s, i).1
            },
            old(self).pos_spec() >= old(self).text_spec().len() ==> {
                &&& r is None
                &&& final(self).pos_spec() == old(self).pos_spec()
            },
    {
        if self.pos >= self.text.len() {
            return None;
        }
        let (kind, e) = scan_token(self.text.as_slice(), self.pos);
        let text = copy_range(self.text.as_slice(), self.pos, e);
        self.pos = e;
        Some(LexerToken { kind, text })
    }
}

} // verus!
