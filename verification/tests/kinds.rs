use as2_syntax::kinds::{SyntaxKind, VARIANT_COUNT};

#[test]
fn test_syntax_kind_variant_count() {
    assert_eq!(VARIANT_COUNT, 79);
}

#[test]
fn test_u16_roundtrip() {
    for v in 0u16..79 {
        let kind = SyntaxKind::from_u16(v).expect("every code below the count decodes");
        assert_eq!(kind.into_u16(), v);
    }
    assert_eq!(SyntaxKind::from_u16(79), None);
    assert_eq!(SyntaxKind::from_u16(200), None);
    assert_eq!(SyntaxKind::from_u16(u16::MAX), None);
}

#[test]
fn test_u16_first_and_last() {
    assert_eq!(SyntaxKind::from_u16(0), Some(SyntaxKind::TokenError));
    assert_eq!(SyntaxKind::from_u16(78), Some(SyntaxKind::NodeScript));
    assert_eq!(SyntaxKind::TokenError.into_u16(), 0);
    assert_eq!(SyntaxKind::NodeScript.into_u16(), 78);
}

#[test]
fn test_is_trivia() {
    assert!(SyntaxKind::TokenUnilineWhitespace.is_trivia());
    assert!(SyntaxKind::TokenMultilineWhitespace.is_trivia());
    assert!(SyntaxKind::TokenTrailingComment.is_trivia());
    assert!(SyntaxKind::TokenMultilineComment.is_trivia());
    assert!(SyntaxKind::TokenUnilineComment.is_trivia());
    assert!(!SyntaxKind::TokenIdent.is_trivia());
    assert!(!SyntaxKind::TokenError.is_trivia());
}

#[test]
fn test_is_multiline_trivia() {
    assert!(SyntaxKind::TokenMultilineWhitespace.is_multiline_trivia());
    assert!(SyntaxKind::TokenTrailingComment.is_multiline_trivia());
    assert!(SyntaxKind::TokenMultilineComment.is_multiline_trivia());
    assert!(!SyntaxKind::TokenUnilineWhitespace.is_multiline_trivia());
    assert!(!SyntaxKind::TokenUnilineComment.is_multiline_trivia());
}

#[test]
fn test_is_token() {
    assert!(SyntaxKind::TokenError.is_token());
    assert!(SyntaxKind::TokenIdent.is_token());
    assert!(SyntaxKind::TokenStrLit.is_token());
    assert!(SyntaxKind::TokenSemicolon.is_token());
    assert!(!SyntaxKind::NodeScript.is_token());
    assert!(!SyntaxKind::NodeExprStmt.is_token());
}

#[test]
fn test_is_stmt() {
    assert!(SyntaxKind::NodeExprStmt.is_stmt());
    assert!(SyntaxKind::NodeVarStmt.is_stmt());
    assert!(!SyntaxKind::NodeBreakStmt.is_stmt());
    assert!(!SyntaxKind::NodeScript.is_stmt());
}

#[test]
fn test_is_expr() {
    for kind in [
        SyntaxKind::NodeArrayLit,
        SyntaxKind::NodeAssignExpr,
        SyntaxKind::NodeIdent,
        SyntaxKind::NodeInfixExpr,
        SyntaxKind::NodeBoolLit,
        SyntaxKind::NodeCallExpr,
        SyntaxKind::NodeNumLit,
        SyntaxKind::NodeObjectLit,
        SyntaxKind::NodeParenExpr,
        SyntaxKind::NodePostfixExpr,
        SyntaxKind::NodePrefixExpr,
        SyntaxKind::NodeSeqExpr,
        SyntaxKind::NodeStrLit,
    ] {
        assert!(kind.is_expr());
    }
    assert!(!SyntaxKind::NodeExprStmt.is_expr());
    assert!(!SyntaxKind::TokenIdent.is_expr());
    assert!(!SyntaxKind::NodeArgs.is_expr());
}

#[test]
fn test_op_predicates() {
    assert!(SyntaxKind::TokenEq.is_assign_op());
    assert!(!SyntaxKind::TokenEqEq.is_assign_op());

    assert!(SyntaxKind::TokenAmpAmp.is_logical_op());
    assert!(SyntaxKind::TokenPipePipe.is_logical_op());
    assert!(!SyntaxKind::TokenAmp.is_logical_op());

    assert!(SyntaxKind::TokenExcl.is_unary_op());
    assert!(SyntaxKind::TokenMinus.is_unary_op());
    assert!(SyntaxKind::TokenPlus.is_unary_op());
    assert!(!SyntaxKind::TokenTilde.is_unary_op());

    assert!(SyntaxKind::TokenDelete.is_prefix_update_op());
    assert!(SyntaxKind::TokenMinusMinus.is_prefix_update_op());
    assert!(SyntaxKind::TokenPlusPlus.is_prefix_update_op());
    assert!(!SyntaxKind::TokenDelete.is_postfix_update_op());
    assert!(SyntaxKind::TokenMinusMinus.is_postfix_update_op());
    assert!(SyntaxKind::TokenPlusPlus.is_postfix_update_op());

    for kind in [
        SyntaxKind::TokenAmp,
        SyntaxKind::TokenCaret,
        SyntaxKind::TokenEqEq,
        SyntaxKind::TokenEqEqEq,
        SyntaxKind::TokenLt,
        SyntaxKind::TokenLtLt,
        SyntaxKind::TokenMinus,
        SyntaxKind::TokenPipe,
        SyntaxKind::TokenPlus,
        SyntaxKind::TokenSlash,
        SyntaxKind::TokenStar,
    ] {
        assert!(kind.is_bin_op());
    }
    assert!(!SyntaxKind::TokenEq.is_bin_op());

    assert!(SyntaxKind::TokenExcl.is_prefix_op());
    assert!(SyntaxKind::TokenDelete.is_prefix_op());
    assert!(!SyntaxKind::TokenTilde.is_prefix_op());

    assert!(SyntaxKind::TokenEq.is_infix_op());
    assert!(SyntaxKind::TokenPlus.is_infix_op());
    assert!(SyntaxKind::TokenAmpAmp.is_infix_op());
    assert!(!SyntaxKind::TokenSemicolon.is_infix_op());
}
