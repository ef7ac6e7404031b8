use vstd::prelude::*;

verus! {

/// How many distinct `SyntaxKind` values there are.
///
/// The kinds are numbered densely from 0, so every value in
/// `[0, VARIANT_COUNT)` decodes to exactly one kind and every value at or
/// above it is rejected by [`SyntaxKind::from_u16`].
pub const VARIANT_COUNT: usize = 79;

/// The closed set of token and node kinds of the syntax tree.
///
/// Token kinds and node kinds share one numbering space (see
/// [`SyntaxKind::into_u16`]) so that a generic tree store can tag every
/// element with a single small integer.
#[derive(Debug, Clone, Copy, PartialEq, Eq, PartialOrd, Ord, Hash, Structural)]
pub enum SyntaxKind {
    /// Invalid token
    TokenError,
    /// Whitespace without any newline
    TokenUnilineWhitespace,
    /// Whitespace containing at least one newline
    TokenMultilineWhitespace,
    /// Trailing comment: from `//` to the end of the line
    TokenTrailingComment,
    /// Comment between `/*` and `*/`, containing a newline
    TokenMultilineComment,
    /// Comment between `/*` and `*/`, without a newline
    TokenUnilineComment,
    /// The keyword `delete`
    TokenDelete,
    /// The keyword `false`
    TokenFalse,
    /// The keyword `for`
    TokenFor,
    /// The keyword `throw`
    TokenThrow,
    /// The keyword `this`
    TokenThis,
    /// The keyword `true`
    TokenTrue,
    /// The keyword `try`
    TokenTry,
    /// The keyword `typeof`
    TokenTypeof,
    /// The keyword `var`
    TokenVar,
    /// The keyword `void`
    TokenVoid,
    /// Identifier name
    TokenIdent,
    /// String literal
    TokenStrLit,
    /// Number literal
    TokenNumLit,
    /// `;`
    TokenSemicolon,
    /// `:`
    TokenColon,
    /// `,`
    TokenComa,
    /// `{`
    TokenOpenBrace,
    /// `}`
    TokenCloseBrace,
    /// `[`
    TokenOpenBracket,
    /// `]`
    TokenCloseBracket,
    /// `(`
    TokenOpenParen,
    /// `)`
    TokenCloseParen,
    /// `=`
    TokenEq,
    /// `==`
    TokenEqEq,
    /// `===`
    TokenEqEqEq,
    /// `!=`
    TokenNotEq,
    /// `!==`
    TokenNotEqEq,
    /// `~`
    TokenTilde,
    /// `!`
    TokenExcl,
    /// `?`
    TokenQuestion,
    /// `<`
    TokenLt,
    /// `<<`
    TokenLtLt,
    /// `<=`
    TokenLtEq,
    /// `>`
    TokenGt,
    /// `>>`
    TokenGtGt,
    /// `>>>`
    TokenGtGtGt,
    /// `>=`
    TokenGtEq,
    /// `+`
    TokenPlus,
    /// `++`
    TokenPlusPlus,
    /// `-`
    TokenMinus,
    /// `--`
    TokenMinusMinus,
    /// `|`
    TokenPipe,
    /// `||`
    TokenPipePipe,
    /// `&`
    TokenAmp,
    /// `&&`
    TokenAmpAmp,
    /// `/`
    TokenSlash,
    /// `%`
    TokenPercent,
    /// `*`
    TokenStar,
    /// `^`
    TokenCaret,
    /// `.`
    TokenDot,
    /// Boolean literal expression
    NodeBoolLit,
    /// Number literal expression
    NodeNumLit,
    /// Array literal expression
    NodeArrayLit,
    /// Object literal expression
    NodeObjectLit,
    /// A single property from an object literal expression
    NodeObjectLitProp,
    /// String literal expression
    NodeStrLit,
    /// Identifier reference expression, or identifier pattern, or label identifier
    NodeIdent,
    /// Sequence expression
    NodeSeqExpr,
    /// Assignment expression
    NodeAssignExpr,
    /// Conditional expression
    NodeCondExpr,
    /// Binary expression or logical expression
    NodeInfixExpr,
    /// Prefix expression
    NodePrefixExpr,
    /// Postfix expression
    NodePostfixExpr,
    /// Parenthesized expression
    NodeParenExpr,
    /// Identifier member expression, such as `foo.bar`
    NodeIdentMemberExpr,
    /// Computed member expression, such as `foo["bar"]`
    NodeComputedMemberExpr,
    /// Function call
    NodeCallExpr,
    /// Function call arguments, or constructor arguments
    NodeArgs,
    /// Break statement
    NodeBreakStmt,
    /// Expression statement
    NodeExprStmt,
    /// Variable statement, declaring one or more variables
    NodeVarStmt,
    /// Variable declaration inside a var statement, declaring a single variable
    NodeVarDecl,
    /// Root node
    NodeScript,
}

impl SyntaxKind {
    /// The numeric code of this kind, in declaration order from 0.
    pub open spec fn spec_u16(self) -> u16 {
        match self {
            SyntaxKind::TokenError => 0,
            SyntaxKind::TokenUnilineWhitespace => 1,
            SyntaxKind::TokenMultilineWhitespace => 2,
            SyntaxKind::TokenTrailingComment => 3,
            SyntaxKind::TokenMultilineComment => 4,
            SyntaxKind::TokenUnilineComment => 5,
            SyntaxKind::TokenDelete => 6,
            SyntaxKind::TokenFalse => 7,
            SyntaxKind::TokenFor => 8,
            SyntaxKind::TokenThrow => 9,
            SyntaxKind::TokenThis => 10,
            SyntaxKind::TokenTrue => 11,
            SyntaxKind::TokenTry => 12,
            SyntaxKind::TokenTypeof => 13,
            SyntaxKind::TokenVar => 14,
            SyntaxKind::TokenVoid => 15,
            SyntaxKind::TokenIdent => 16,
            SyntaxKind::TokenStrLit => 17,
            SyntaxKind::TokenNumLit => 18,
            SyntaxKind::TokenSemicolon => 19,
            SyntaxKind::TokenColon => 20,
            SyntaxKind::TokenComa => 21,
            SyntaxKind::TokenOpenBrace => 22,
            SyntaxKind::TokenCloseBrace => 23,
            SyntaxKind::TokenOpenBracket => 24,
            SyntaxKind::TokenCloseBracket => 25,
            SyntaxKind::TokenOpenParen => 26,
            SyntaxKind::TokenCloseParen => 27,
            SyntaxKind::TokenEq => 28,
            SyntaxKind::TokenEqEq => 29,
            SyntaxKind::TokenEqEqEq => 30,
            SyntaxKind::TokenNotEq => 31,
            SyntaxKind::TokenNotEqEq => 32,
            SyntaxKind::TokenTilde => 33,
            SyntaxKind::TokenExcl => 34,
            SyntaxKind::TokenQuestion => 35,
            SyntaxKind::TokenLt => 36,
            SyntaxKind::TokenLtLt => 37,
            SyntaxKind::TokenLtEq => 38,
            SyntaxKind::TokenGt => 39,
            SyntaxKind::TokenGtGt => 40,
            SyntaxKind::TokenGtGtGt => 41,
            SyntaxKind::TokenGtEq => 42,
            SyntaxKind::TokenPlus => 43,
            SyntaxKind::TokenPlusPlus => 44,
            SyntaxKind::TokenMinus => 45,
            SyntaxKind::TokenMinusMinus => 46,
            SyntaxKind::TokenPipe => 47,
            SyntaxKind::TokenPipePipe => 48,
            SyntaxKind::TokenAmp => 49,
            SyntaxKind::TokenAmpAmp => 50,
            SyntaxKind::TokenSlash => 51,
            SyntaxKind::TokenPercent => 52,
            SyntaxKind::TokenStar => 53,
            SyntaxKind::TokenCaret => 54,
            SyntaxKind::TokenDot => 55,
            SyntaxKind::NodeBoolLit => 56,
            SyntaxKind::NodeNumLit => 57,
            SyntaxKind::NodeArrayLit => 58,
            SyntaxKind::NodeObjectLit => 59,
            SyntaxKind::NodeObjectLitProp => 60,
            SyntaxKind::NodeStrLit => 61,
            SyntaxKind::NodeIdent => 62,
            SyntaxKind::NodeSeqExpr => 63,
            SyntaxKind::NodeAssignExpr => 64,
            SyntaxKind::NodeCondExpr => 65,
            SyntaxKind::NodeInfixExpr => 66,
            SyntaxKind::NodePrefixExpr => 67,
            SyntaxKind::NodePostfixExpr => 68,
            SyntaxKind::NodeParenExpr => 69,
            SyntaxKind::NodeIdentMemberExpr => 70,
            SyntaxKind::NodeComputedMemberExpr => 71,
            SyntaxKind::NodeCallExpr => 72,
            SyntaxKind::NodeArgs => 73,
            SyntaxKind::NodeBreakStmt => 74,
            SyntaxKind::NodeExprStmt => 75,
            SyntaxKind::NodeVarStmt => 76,
            SyntaxKind::NodeVarDecl => 77,
            SyntaxKind::NodeScript => 78,
        }
    }

    /// Encodes this kind as its dense numeric code.
    #[verifier::when_used_as_spec(spec_u16)]
    pub fn into_u16(self) -> (r: u16)
        ensures
            r == self.spec_u16(),
            r < 79,
    {
        match self {
            SyntaxKind::TokenError => 0,
            SyntaxKind::TokenUnilineWhitespace => 1,
            SyntaxKind::TokenMultilineWhitespace => 2,
            SyntaxKind::TokenTrailingComment => 3,
            SyntaxKind::TokenMultilineComment => 4,
            SyntaxKind::TokenUnilineComment => 5,
            SyntaxKind::TokenDelete => 6,
            SyntaxKind::TokenFalse => 7,
            SyntaxKind::TokenFor => 8,
            SyntaxKind::TokenThrow => 9,
            SyntaxKind::TokenThis => 10,
            SyntaxKind::TokenTrue => 11,
            SyntaxKind::TokenTry => 12,
            SyntaxKind::TokenTypeof => 13,
            SyntaxKind::TokenVar => 14,
            SyntaxKind::TokenVoid => 15,
            SyntaxKind::TokenIdent => 16,
            SyntaxKind::TokenStrLit => 17,
            SyntaxKind::TokenNumLit => 18,
            SyntaxKind::TokenSemicolon => 19,
            SyntaxKind::TokenColon => 20,
            SyntaxKind::TokenComa => 21,
            SyntaxKind::TokenOpenBrace => 22,
            SyntaxKind::TokenCloseBrace => 23,
            SyntaxKind::TokenOpenBracket => 24,
            SyntaxKind::TokenCloseBracket => 25,
            SyntaxKind::TokenOpenParen => 26,
            SyntaxKind::TokenCloseParen => 27,
            SyntaxKind::TokenEq => 28,
            SyntaxKind::TokenEqEq => 29,
            SyntaxKind::TokenEqEqEq => 30,
            SyntaxKind::TokenNotEq => 31,
            SyntaxKind::TokenNotEqEq => 32,
            SyntaxKind::TokenTilde => 33,
            SyntaxKind::TokenExcl => 34,
            SyntaxKind::TokenQuestion => 35,
            SyntaxKind::TokenLt => 36,
            SyntaxKind::TokenLtLt => 37,
            SyntaxKind::TokenLtEq => 38,
            SyntaxKind::TokenGt => 39,
            SyntaxKind::TokenGtGt => 40,
            SyntaxKind::TokenGtGtGt => 41,
            SyntaxKind::TokenGtEq => 42,
            SyntaxKind::TokenPlus => 43,
            SyntaxKind::TokenPlusPlus => 44,
            SyntaxKind::TokenMinus => 45,
            SyntaxKind::TokenMinusMinus => 46,
            SyntaxKind::TokenPipe => 47,
            SyntaxKind::TokenPipePipe => 48,
            SyntaxKind::TokenAmp => 49,
            SyntaxKind::TokenAmpAmp => 50,
            SyntaxKind::TokenSlash => 51,
            SyntaxKind::TokenPercent => 52,
            SyntaxKind::TokenStar => 53,
            SyntaxKind::TokenCaret => 54,
            SyntaxKind::TokenDot => 55,
            SyntaxKind::NodeBoolLit => 56,
            SyntaxKind::NodeNumLit => 57,
            SyntaxKind::NodeArrayLit => 58,
            SyntaxKind::NodeObjectLit => 59,
            SyntaxKind::NodeObjectLitProp => 60,
            SyntaxKind::NodeStrLit => 61,
            SyntaxKind::NodeIdent => 62,
            SyntaxKind::NodeSeqExpr => 63,
            SyntaxKind::NodeAssignExpr => 64,
            SyntaxKind::NodeCondExpr => 65,
            SyntaxKind::NodeInfixExpr => 66,
            SyntaxKind::NodePrefixExpr => 67,
            SyntaxKind::NodePostfixExpr => 68,
            SyntaxKind::NodeParenExpr => 69,
            SyntaxKind::NodeIdentMemberExpr => 70,
            SyntaxKind::NodeComputedMemberExpr => 71,
            SyntaxKind::NodeCallExpr => 72,
            SyntaxKind::NodeArgs => 73,
            SyntaxKind::NodeBreakStmt => 74,
            SyntaxKind::NodeExprStmt => 75,
            SyntaxKind::NodeVarStmt => 76,
            SyntaxKind::NodeVarDecl => 77,
            SyntaxKind::NodeScript => 78,
        }
    }

    /// Decodes a numeric code back into a kind; every code below
    /// [`VARIANT_COUNT`] decodes, and every other code is rejected.
    pub fn from_u16(value: u16) -> (r: Option<SyntaxKind>)
        ensures
            (value < 79) == (r is Some),
            r matches Some(k) ==> k.spec_u16() == value,
    {
        match value {
            0 => Some(SyntaxKind::TokenError),
            1 => Some(SyntaxKind::TokenUnilineWhitespace),
            2 => Some(SyntaxKind::TokenMultilineWhitespace),
            3 => Some(SyntaxKind::TokenTrailingComment),
            4 => Some(SyntaxKind::TokenMultilineComment),
            5 => Some(SyntaxKind::TokenUnilineComment),
            6 => Some(SyntaxKind::TokenDelete),
            7 => Some(SyntaxKind::TokenFalse),
            8 => Some(SyntaxKind::TokenFor),
            9 => Some(SyntaxKind::TokenThrow),
            10 => Some(SyntaxKind::TokenThis),
            11 => Some(SyntaxKind::TokenTrue),
            12 => Some(SyntaxKind::TokenTry),
            13 => Some(SyntaxKind::TokenTypeof),
            14 => Some(SyntaxKind::TokenVar),
            15 => Some(SyntaxKind::TokenVoid),
            16 => Some(SyntaxKind::TokenIdent),
            17 => Some(SyntaxKind::TokenStrLit),
            18 => Some(SyntaxKind::TokenNumLit),
            19 => Some(SyntaxKind::TokenSemicolon),
            20 => Some(SyntaxKind::TokenColon),
            21 => Some(SyntaxKind::TokenComa),
            22 => Some(SyntaxKind::TokenOpenBrace),
            23 => Some(SyntaxKind::TokenCloseBrace),
            24 => Some(SyntaxKind::TokenOpenBracket),
            25 => Some(SyntaxKind::TokenCloseBracket),
            26 => Some(SyntaxKind::TokenOpenParen),
            27 => Some(SyntaxKind::TokenCloseParen),
            28 => Some(SyntaxKind::TokenEq),
            29 => Some(SyntaxKind::TokenEqEq),
            30 => Some(SyntaxKind::TokenEqEqEq),
            31 => Some(SyntaxKind::TokenNotEq),
            32 => Some(SyntaxKind::TokenNotEqEq),
            33 => Some(SyntaxKind::TokenTilde),
            34 => Some(SyntaxKind::TokenExcl),
            35 => Some(SyntaxKind::TokenQuestion),
            36 => Some(SyntaxKind::TokenLt),
            37 => Some(SyntaxKind::TokenLtLt),
            38 => Some(SyntaxKind::TokenLtEq),
            39 => Some(SyntaxKind::TokenGt),
            40 => Some(SyntaxKind::TokenGtGt),
            41 => Some(SyntaxKind::TokenGtGtGt),
            42 => Some(SyntaxKind::TokenGtEq),
            43 => Some(SyntaxKind::TokenPlus),
            44 => Some(SyntaxKind::TokenPlusPlus),
            45 => Some(SyntaxKind::TokenMinus),
            46 => Some(SyntaxKind::TokenMinusMinus),
            47 => Some(SyntaxKind::TokenPipe),
            48 => Some(SyntaxKind::TokenPipePipe),
            49 => Some(SyntaxKind::TokenAmp),
            50 => Some(SyntaxKind::TokenAmpAmp),
            51 => Some(SyntaxKind::TokenSlash),
            52 => Some(SyntaxKind::TokenPercent),
            53 => Some(SyntaxKind::TokenStar),
            54 => Some(SyntaxKind::TokenCaret),
            55 => Some(SyntaxKind::TokenDot),
            56 => Some(SyntaxKind::NodeBoolLit),
            57 => Some(SyntaxKind::NodeNumLit),
            58 => Some(SyntaxKind::NodeArrayLit),
            59 => Some(SyntaxKind::NodeObjectLit),
            60 => Some(SyntaxKind::NodeObjectLitProp),
            61 => Some(SyntaxKind::NodeStrLit),
            62 => Some(SyntaxKind::NodeIdent),
            63 => Some(SyntaxKind::NodeSeqExpr),
            64 => Some(SyntaxKind::NodeAssignExpr),
            65 => Some(SyntaxKind::NodeCondExpr),
            66 => Some(SyntaxKind::NodeInfixExpr),
            67 => Some(SyntaxKind::NodePrefixExpr),
            68 => Some(SyntaxKind::NodePostfixExpr),
            69 => Some(SyntaxKind::NodeParenExpr),
            70 => Some(SyntaxKind::NodeIdentMemberExpr),
            71 => Some(SyntaxKind::NodeComputedMemberExpr),
            72 => Some(SyntaxKind::NodeCallExpr),
            73 => Some(SyntaxKind::NodeArgs),
            74 => Some(SyntaxKind::NodeBreakStmt),
            75 => Some(SyntaxKind::NodeExprStmt),
            76 => Some(SyntaxKind::NodeVarStmt),
            77 => Some(SyntaxKind::NodeVarDecl),
            78 => Some(SyntaxKind::NodeScript),
            _ => None,
        }
    }

    /// Whitespace and comment kinds: tokens with no grammatical meaning.
    pub open spec fn spec_is_trivia(self) -> bool {
        match self {
            SyntaxKind::TokenMultilineWhitespace
            | SyntaxKind::TokenUnilineWhitespace
            | SyntaxKind::TokenTrailingComment
            | SyntaxKind::TokenMultilineComment
            | SyntaxKind::TokenUnilineComment => true,
            _ => false,
        }
    }

    #[verifier::when_used_as_spec(spec_is_trivia)]
    pub fn is_trivia(self) -> (r: bool)
        ensures
            r == self.spec_is_trivia(),
    {
        match self {
            SyntaxKind::TokenMultilineWhitespace
            | SyntaxKind::TokenUnilineWhitespace
            | SyntaxKind::TokenTrailingComment
            | SyntaxKind::TokenMultilineComment
            | SyntaxKind::TokenUnilineComment => true,
            _ => false,
        }
    }

    /// Trivia kinds that always or sometimes span a line ending.
    pub open spec fn spec_is_multiline_trivia(self) -> bool {
        match self {
            SyntaxKind::TokenMultilineWhitespace
            | SyntaxKind::TokenTrailingComment
            | SyntaxKind::TokenMultilineComment => true,
            _ => false,
        }
    }

    #[verifier::when_used_as_spec(spec_is_multiline_trivia)]
    pub fn is_multiline_trivia(self) -> (r: bool)
        ensures
            r == self.spec_is_multiline_trivia(),
    {
        match self {
            SyntaxKind::TokenMultilineWhitespace
            | SyntaxKind::TokenTrailingComment
            | SyntaxKind::TokenMultilineComment => true,
            _ => false,
        }
    }

    /// Kinds that the tokenizer can emit as terminal symbols.
    pub open spec fn spec_is_token(self) -> bool {
        match self {
            SyntaxKind::TokenError
            | SyntaxKind::TokenUnilineWhitespace
            | SyntaxKind::TokenMultilineWhitespace
            | SyntaxKind::TokenTrailingComment
            | SyntaxKind::TokenMultilineComment
            | SyntaxKind::TokenUnilineComment
            | SyntaxKind::TokenThrow
            | SyntaxKind::TokenThis
            | SyntaxKind::TokenTrue
            | SyntaxKind::TokenTry
            | SyntaxKind::TokenIdent
            | SyntaxKind::TokenStrLit
            | SyntaxKind::TokenSemicolon
            | SyntaxKind::TokenOpenParen
            | SyntaxKind::TokenCloseParen => true,
            _ => false,
        }
    }

    #[verifier::when_used_as_spec(spec_is_token)]
    pub fn is_token(self) -> (r: bool)
        ensures
            r == self.spec_is_token(),
    {
        match self {
            SyntaxKind::TokenError
            | SyntaxKind::TokenUnilineWhitespace
            | SyntaxKind::TokenMultilineWhitespace
            | SyntaxKind::TokenTrailingComment
            | SyntaxKind::TokenMultilineComment
            | SyntaxKind::TokenUnilineComment
            | SyntaxKind::TokenThrow
            | SyntaxKind::TokenThis
            | SyntaxKind::TokenTrue
            | SyntaxKind::TokenTry
            | SyntaxKind::TokenIdent
            | SyntaxKind::TokenStrLit
            | SyntaxKind::TokenSemicolon
            | SyntaxKind::TokenOpenParen
            | SyntaxKind::TokenCloseParen => true,
            _ => false,
        }
    }

    /// Node kinds that stand in statement position.
    pub open spec fn spec_is_stmt(self) -> bool {
        match self {
            SyntaxKind::NodeExprStmt
            | SyntaxKind::NodeVarStmt => true,
            _ => false,
        }
    }

    #[verifier::when_used_as_spec(spec_is_stmt)]
    pub fn is_stmt(self) -> (r: bool)
        ensures
            r == self.spec_is_stmt(),
    {
        match self {
            SyntaxKind::NodeExprStmt
            | SyntaxKind::NodeVarStmt => true,
            _ => false,
        }
    }

    /// Node kinds that stand in expression position.
    pub open spec fn spec_is_expr(self) -> bool {
        match self {
            SyntaxKind::NodeArrayLit
            | SyntaxKind::NodeAssignExpr
            | SyntaxKind::NodeIdent
            | SyntaxKind::NodeInfixExpr
            | SyntaxKind::NodeBoolLit
            | SyntaxKind::NodeCallExpr
            | SyntaxKind::NodeNumLit
            | SyntaxKind::NodeObjectLit
            | SyntaxKind::NodeParenExpr
            | SyntaxKind::NodePostfixExpr
            | SyntaxKind::NodePrefixExpr
            | SyntaxKind::NodeSeqExpr
            | SyntaxKind::NodeStrLit => true,
            _ => false,
        }
    }

    #[verifier::when_used_as_spec(spec_is_expr)]
    pub fn is_expr(self) -> (r: bool)
        ensures
            r == self.spec_is_expr(),
    {
        match self {
            SyntaxKind::NodeArrayLit
            | SyntaxKind::NodeAssignExpr
            | SyntaxKind::NodeIdent
            | SyntaxKind::NodeInfixExpr
            | SyntaxKind::NodeBoolLit
            | SyntaxKind::NodeCallExpr
            | SyntaxKind::NodeNumLit
            | SyntaxKind::NodeObjectLit
            | SyntaxKind::NodeParenExpr
            | SyntaxKind::NodePostfixExpr
            | SyntaxKind::NodePrefixExpr
            | SyntaxKind::NodeSeqExpr
            | SyntaxKind::NodeStrLit => true,
            _ => false,
        }
    }

    /// Token kinds usable as the operator of an assignment expression.
    pub open spec fn spec_is_assign_op(self) -> bool {
        match self {
            SyntaxKind::TokenEq => true,
            _ => false,
        }
    }

    #[verifier::when_used_as_spec(spec_is_assign_op)]
    pub fn is_assign_op(self) -> (r: bool)
        ensures
            r == self.spec_is_assign_op(),
    {
        match self {
            SyntaxKind::TokenEq => true,
            _ => false,
        }
    }

    /// Token kinds usable as the operator of a logical expression.
    pub open spec fn spec_is_logical_op(self) -> bool {
        match self {
            SyntaxKind::TokenPipePipe
            | SyntaxKind::TokenAmpAmp => true,
            _ => false,
        }
    }

    #[verifier::when_used_as_spec(spec_is_logical_op)]
    pub fn is_logical_op(self) -> (r: bool)
        ensures
            r == self.spec_is_logical_op(),
    {
        match self {
            SyntaxKind::TokenPipePipe
            | SyntaxKind::TokenAmpAmp => true,
            _ => false,
        }
    }

    /// Token kinds usable as the operator of a unary expression.
    pub open spec fn spec_is_unary_op(self) -> bool {
        match self {
            SyntaxKind::TokenExcl
            | SyntaxKind::TokenMinus
            | SyntaxKind::TokenPlus => true,
            _ => false,
        }
    }

    #[verifier::when_used_as_spec(spec_is_unary_op)]
    pub fn is_unary_op(self) -> (r: bool)
        ensures
            r == self.spec_is_unary_op(),
    {
        match self {
            SyntaxKind::TokenExcl
            | SyntaxKind::TokenMinus
            | SyntaxKind::TokenPlus => true,
            _ => false,
        }
    }

    /// Token kinds usable as the operator of a prefix update expression.
    pub open spec fn spec_is_prefix_update_op(self) -> bool {
        match self {
            SyntaxKind::TokenDelete
            | SyntaxKind::TokenMinusMinus
            | SyntaxKind::TokenPlusPlus => true,
            _ => false,
        }
    }

    #[verifier::when_used_as_spec(spec_is_prefix_update_op)]
    pub fn is_prefix_update_op(self) -> (r: bool)
        ensures
            r == self.spec_is_prefix_update_op(),
    {
        match self {
            SyntaxKind::TokenDelete
            | SyntaxKind::TokenMinusMinus
            | SyntaxKind::TokenPlusPlus => true,
            _ => false,
        }
    }

    /// Token kinds usable as the operator of a postfix update expression.
    pub open spec fn spec_is_postfix_update_op(self) -> bool {
        match self {
            SyntaxKind::TokenMinusMinus
            | SyntaxKind::TokenPlusPlus => true,
            _ => false,
        }
    }

    #[verifier::when_used_as_spec(spec_is_postfix_update_op)]
    pub fn is_postfix_update_op(self) -> (r: bool)
        ensures
            r == self.spec_is_postfix_update_op(),
    {
        match self {
            SyntaxKind::TokenMinusMinus
            | SyntaxKind::TokenPlusPlus => true,
            _ => false,
        }
    }

    /// Token kinds usable as the operator of a binary expression.
    pub open spec fn spec_is_bin_op(self) -> bool {
        match self {
            SyntaxKind::TokenAmp
            | SyntaxKind::TokenCaret
            | SyntaxKind::TokenEqEq
            | SyntaxKind::TokenEqEqEq
            | SyntaxKind::TokenLt
            | SyntaxKind::TokenLtLt
            | SyntaxKind::TokenMinus
            | SyntaxKind::TokenPipe
            | SyntaxKind::TokenPlus
            | SyntaxKind::TokenSlash
            | SyntaxKind::TokenStar => true,
            _ => false,
        }
    }

    #[verifier::when_used_as_spec(spec_is_bin_op)]
    pub fn is_bin_op(self) -> (r: bool)
        ensures
            r == self.spec_is_bin_op(),
    {
        match self {
            SyntaxKind::TokenAmp
            | SyntaxKind::TokenCaret
            | SyntaxKind::TokenEqEq
            | SyntaxKind::TokenEqEqEq
            | SyntaxKind::TokenLt
            | SyntaxKind::TokenLtLt
            | SyntaxKind::TokenMinus
            | SyntaxKind::TokenPipe
            | SyntaxKind::TokenPlus
            | SyntaxKind::TokenSlash
            | SyntaxKind::TokenStar => true,
            _ => false,
        }
    }

    /// Token kinds usable as a prefix operator: unary or prefix update.
    pub open spec fn spec_is_prefix_op(self) -> bool {
        self.spec_is_unary_op() || self.spec_is_prefix_update_op()
    }

    #[verifier::when_used_as_spec(spec_is_prefix_op)]
    pub fn is_prefix_op(self) -> (r: bool)
        ensures
            r == self.spec_is_prefix_op(),
    {
        self.is_unary_op() || self.is_prefix_update_op()
    }

    /// Token kinds usable as an infix operator: assignment, binary or logical.
    pub open spec fn spec_is_infix_op(self) -> bool {
        self.spec_is_assign_op() || self.spec_is_bin_op() || self.spec_is_logical_op()
    }

    #[verifier::when_used_as_spec(spec_is_infix_op)]
    pub fn is_infix_op(self) -> (r: bool)
        ensures
            r == self.spec_is_infix_op(),
    {
        self.is_assign_op() || self.is_bin_op() || self.is_logical_op()
    }
}

} // verus!
