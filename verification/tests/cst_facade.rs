use as2_syntax::ast::{BinOp, ExprCast, LogicalOp, PatCast, StmtCast, UnaryOp, UpdateOp};
use as2_syntax::cst::{
    find_infix_op, find_postfix_op, find_prefix_op, trim_paren, SyntaxNode, SyntaxSymbol,
    SyntaxToken, TreeError,
};
use as2_syntax::facade::{
    AssignExpr, BinExpr, BoolLit, Expr, ExprStmt, IdentExpr, IdentPat, NumLit, Pat, Script,
    SeqExpr, Stmt, StrLit, TraceStmt, UnaryExpr, UpdateExpr, VarDecl,
};
use as2_syntax::kinds::SyntaxKind;

fn token(kind: SyntaxKind, text: &str) -> SyntaxSymbol {
    SyntaxSymbol::Token(SyntaxToken { kind, text: text.as_bytes().to_vec() })
}

fn node(kind: SyntaxKind, children: Vec<SyntaxSymbol>) -> SyntaxNode {
    SyntaxNode { kind, children }
}

fn ident(name: &str) -> SyntaxNode {
    node(SyntaxKind::NodeIdent, vec![token(SyntaxKind::TokenIdent, name)])
}

fn paren(inner: SyntaxNode) -> SyntaxNode {
    node(
        SyntaxKind::NodeParenExpr,
        vec![
            token(SyntaxKind::TokenOpenParen, "("),
            SyntaxSymbol::Node(inner),
            token(SyntaxKind::TokenCloseParen, ")"),
        ],
    )
}

fn infix(left: SyntaxNode, op: SyntaxKind, op_text: &str, right: SyntaxNode) -> SyntaxNode {
    node(
        SyntaxKind::NodeInfixExpr,
        vec![SyntaxSymbol::Node(left), token(op, op_text), SyntaxSymbol::Node(right)],
    )
}

#[test]
fn test_trim_paren_descends_to_first_non_paren() {
    let tree = paren(paren(ident("x")));
    let trimmed = trim_paren(&tree).expect("well-formed parens");
    assert_eq!(trimmed.kind, SyntaxKind::NodeIdent);
}

#[test]
fn test_trim_paren_idempotent() {
    let tree = paren(ident("x"));
    let once = trim_paren(&tree).expect("well-formed parens");
    let twice = trim_paren(once).expect("already trimmed");
    assert_eq!(once, twice);
}

#[test]
fn test_trim_paren_rejects_non_expression() {
    let tree = node(SyntaxKind::NodeExprStmt, vec![]);
    assert_eq!(trim_paren(&tree).unwrap_err(), TreeError::NotAnExpr);
    let childless = node(SyntaxKind::NodeParenExpr, vec![token(SyntaxKind::TokenOpenParen, "(")]);
    assert_eq!(trim_paren(&childless).unwrap_err(), TreeError::MissingChild);
}

#[test]
fn test_find_infix_op_needs_a_left_operand() {
    // A leading operator-like token is never the top-level operator.
    let children = vec![
        token(SyntaxKind::TokenPlus, "+"),
        SyntaxSymbol::Node(ident("a")),
        token(SyntaxKind::TokenStar, "*"),
        SyntaxSymbol::Node(ident("b")),
    ];
    let found = find_infix_op(&children).expect("operator after operand");
    assert_eq!(found.kind, SyntaxKind::TokenStar);

    let no_left = vec![token(SyntaxKind::TokenPlus, "+")];
    assert!(find_infix_op(&no_left).is_none());
}

#[test]
fn test_find_prefix_and_postfix_ops() {
    let children = vec![
        token(SyntaxKind::TokenMinusMinus, "--"),
        SyntaxSymbol::Node(ident("a")),
    ];
    assert_eq!(find_prefix_op(&children).unwrap().kind, SyntaxKind::TokenMinusMinus);
    assert_eq!(find_postfix_op(&children).unwrap().kind, SyntaxKind::TokenMinusMinus);
    let none = vec![SyntaxSymbol::Node(ident("a"))];
    assert!(find_prefix_op(&none).is_none());
    assert!(find_postfix_op(&none).is_none());
}

#[test]
fn test_infix_amp_amp_casts_to_logical() {
    let tree = infix(ident("a"), SyntaxKind::TokenAmpAmp, "&&", ident("b"));
    let expr = Expr { syntax: tree };
    match expr.cast().expect("well-formed infix") {
        ExprCast::Logical(w) => {
            assert_eq!(w.get().op().unwrap(), LogicalOp::And);
        },
        _ => panic!("expected the logical arm"),
    }
}

#[test]
fn test_infix_plus_casts_to_binary() {
    let tree = infix(ident("a"), SyntaxKind::TokenPlus, "+", ident("b"));
    let expr = Expr { syntax: tree };
    match expr.cast().expect("well-formed infix") {
        ExprCast::Bin(w) => {
            assert_eq!(w.get().op().unwrap(), BinOp::Add);
        },
        _ => panic!("expected the binary arm"),
    }
}

#[test]
fn test_paren_operand_does_not_change_resolution() {
    // Wrapping either operand in a paren node leaves the outcome unchanged.
    let wrapped_left = infix(paren(ident("a")), SyntaxKind::TokenAmpAmp, "&&", ident("b"));
    match (Expr { syntax: wrapped_left }).cast().unwrap() {
        ExprCast::Logical(w) => {
            assert_eq!(w.get().op().unwrap(), LogicalOp::And);
        },
        _ => panic!("expected the logical arm"),
    }
    let wrapped_right = infix(ident("a"), SyntaxKind::TokenPlus, "+", paren(ident("b")));
    match (Expr { syntax: wrapped_right }).cast().unwrap() {
        ExprCast::Bin(w) => {
            assert_eq!(w.get().op().unwrap(), BinOp::Add);
        },
        _ => panic!("expected the binary arm"),
    }
    // Wrapping the whole expression leaves the outcome unchanged too, and
    // the wrapper's accessors see through the parens.
    let whole = paren(infix(ident("a"), SyntaxKind::TokenAmpAmp, "&&", ident("b")));
    match (Expr { syntax: whole }).cast().unwrap() {
        ExprCast::Logical(w) => {
            assert_eq!(w.get().op().unwrap(), LogicalOp::And);
            assert_eq!(w.get().left().unwrap().get().syntax.kind, SyntaxKind::NodeIdent);
            assert_eq!(w.get().right().unwrap().get().syntax.kind, SyntaxKind::NodeIdent);
        },
        _ => panic!("expected the logical arm"),
    }
    let whole_bin = paren(paren(infix(ident("a"), SyntaxKind::TokenPlus, "+", ident("b"))));
    match (Expr { syntax: whole_bin }).cast().unwrap() {
        ExprCast::Bin(w) => {
            assert_eq!(w.get().op().unwrap(), BinOp::Add);
        },
        _ => panic!("expected the binary arm"),
    }
}

#[test]
fn test_accessors_see_through_parens() {
    // Every expression accessor unwraps parenthesization first.
    let bool_lit = paren(node(SyntaxKind::NodeBoolLit, vec![token(SyntaxKind::TokenTrue, "true")]));
    assert_eq!(BoolLit { syntax: bool_lit }.value().unwrap(), true);

    let str_lit = paren(node(
        SyntaxKind::NodeStrLit,
        vec![token(SyntaxKind::TokenStrLit, "\"a\\nb\"")],
    ));
    assert_eq!(StrLit { syntax: str_lit }.value().unwrap(), b"a\nb".to_vec());

    let assign = paren(node(
        SyntaxKind::NodeAssignExpr,
        vec![
            SyntaxSymbol::Node(ident("target")),
            token(SyntaxKind::TokenEq, "="),
            SyntaxSymbol::Node(ident("value")),
        ],
    ));
    let assign = AssignExpr { syntax: assign };
    assert!(matches!(assign.target().unwrap().get().cast(), PatCast::Ident(_)));
    assert_eq!(assign.value().unwrap().get().syntax.kind, SyntaxKind::NodeIdent);

    let call = paren(node(
        SyntaxKind::NodeCallExpr,
        vec![
            SyntaxSymbol::Node(ident("f")),
            SyntaxSymbol::Node(node(SyntaxKind::NodeArgs, vec![SyntaxSymbol::Node(ident("a"))])),
        ],
    ));
    let call = as2_syntax::facade::CallExpr { syntax: call };
    assert_eq!(call.callee().unwrap().get().syntax.kind, SyntaxKind::NodeIdent);
    assert_eq!(call.args().unwrap().len(), 1);
}

#[test]
fn test_cast_covers_every_concrete_expression_kind() {
    let bool_lit = node(SyntaxKind::NodeBoolLit, vec![token(SyntaxKind::TokenTrue, "true")]);
    assert!(matches!(Expr { syntax: bool_lit }.cast().unwrap(), ExprCast::BoolLit(_)));

    let num_lit = node(SyntaxKind::NodeNumLit, vec![token(SyntaxKind::TokenNumLit, "42")]);
    assert!(matches!(Expr { syntax: num_lit }.cast().unwrap(), ExprCast::NumLit(_)));

    let str_lit = node(SyntaxKind::NodeStrLit, vec![token(SyntaxKind::TokenStrLit, "\"s\"")]);
    assert!(matches!(Expr { syntax: str_lit }.cast().unwrap(), ExprCast::StrLit(_)));

    assert!(matches!(Expr { syntax: ident("x") }.cast().unwrap(), ExprCast::Ident(_)));

    let assign = node(
        SyntaxKind::NodeAssignExpr,
        vec![
            SyntaxSymbol::Node(ident("x")),
            token(SyntaxKind::TokenEq, "="),
            SyntaxSymbol::Node(ident("y")),
        ],
    );
    assert!(matches!(Expr { syntax: assign }.cast().unwrap(), ExprCast::Assign(_)));

    let call = node(
        SyntaxKind::NodeCallExpr,
        vec![
            SyntaxSymbol::Node(ident("f")),
            SyntaxSymbol::Node(node(SyntaxKind::NodeArgs, vec![SyntaxSymbol::Node(ident("a"))])),
        ],
    );
    assert!(matches!(Expr { syntax: call }.cast().unwrap(), ExprCast::Call(_)));

    let seq = node(
        SyntaxKind::NodeSeqExpr,
        vec![
            SyntaxSymbol::Node(ident("a")),
            token(SyntaxKind::TokenComa, ","),
            SyntaxSymbol::Node(ident("b")),
        ],
    );
    assert!(matches!(Expr { syntax: seq }.cast().unwrap(), ExprCast::Sequence(_)));

    let prefix_unary = node(
        SyntaxKind::NodePrefixExpr,
        vec![token(SyntaxKind::TokenExcl, "!"), SyntaxSymbol::Node(ident("a"))],
    );
    assert!(matches!(Expr { syntax: prefix_unary }.cast().unwrap(), ExprCast::Unary(_)));

    let prefix_update = node(
        SyntaxKind::NodePrefixExpr,
        vec![token(SyntaxKind::TokenPlusPlus, "++"), SyntaxSymbol::Node(ident("a"))],
    );
    assert!(matches!(Expr { syntax: prefix_update }.cast().unwrap(), ExprCast::Update(_)));

    let postfix = node(
        SyntaxKind::NodePostfixExpr,
        vec![SyntaxSymbol::Node(ident("a")), token(SyntaxKind::TokenPlusPlus, "++")],
    );
    assert!(matches!(Expr { syntax: postfix }.cast().unwrap(), ExprCast::Update(_)));

    // The expression kinds without a concrete production arm fall back to
    // the error arm, never a failure.
    let array = node(SyntaxKind::NodeArrayLit, vec![]);
    assert!(matches!(Expr { syntax: array }.cast().unwrap(), ExprCast::Error(_)));
    let object = node(SyntaxKind::NodeObjectLit, vec![]);
    assert!(matches!(Expr { syntax: object }.cast().unwrap(), ExprCast::Error(_)));
}

#[test]
fn test_cast_reports_malformed_infix() {
    let no_op = node(SyntaxKind::NodeInfixExpr, vec![SyntaxSymbol::Node(ident("a"))]);
    assert!(matches!(Expr { syntax: no_op }.cast(), Err(TreeError::MissingOperator)));

    // An assignment operator inside an infix node is not in the table.
    let bad_op = infix(ident("a"), SyntaxKind::TokenEq, "=", ident("b"));
    assert!(matches!(Expr { syntax: bad_op }.cast(), Err(TreeError::UnknownOperator)));
}

#[test]
fn test_stmt_cast() {
    let expr_stmt = node(
        SyntaxKind::NodeExprStmt,
        vec![SyntaxSymbol::Node(ident("x")), token(SyntaxKind::TokenSemicolon, ";")],
    );
    let stmt = Stmt { syntax: expr_stmt };
    match stmt.cast() {
        StmtCast::Expr(w) => {
            let inner = w.get().expr().expect("has an expression");
            assert_eq!(inner.get().syntax.kind, SyntaxKind::NodeIdent);
        },
        _ => panic!("expected the expression-statement arm"),
    }

    let var_stmt = node(
        SyntaxKind::NodeVarStmt,
        vec![
            token(SyntaxKind::TokenVar, "var"),
            SyntaxSymbol::Node(node(
                SyntaxKind::NodeVarDecl,
                vec![SyntaxSymbol::Node(ident("x"))],
            )),
        ],
    );
    match (Stmt { syntax: var_stmt }).cast() {
        StmtCast::VarStmt(w) => {
            let decls = w.get().decls();
            assert_eq!(decls.len(), 1);
        },
        _ => panic!("expected the variable-statement arm"),
    }

    let other = node(SyntaxKind::NodeBreakStmt, vec![]);
    assert!(matches!((Stmt { syntax: other }).cast(), StmtCast::Error(_)));
}

#[test]
fn test_script_stmts_filters_statement_nodes() {
    let script = node(
        SyntaxKind::NodeScript,
        vec![
            SyntaxSymbol::Node(node(
                SyntaxKind::NodeExprStmt,
                vec![SyntaxSymbol::Node(ident("a"))],
            )),
            token(SyntaxKind::TokenMultilineWhitespace, "\n"),
            SyntaxSymbol::Node(node(SyntaxKind::NodeVarStmt, vec![])),
            SyntaxSymbol::Node(ident("ignored")),
        ],
    );
    let script = Script::from_syntax(script).expect("script kind");
    let stmts = script.stmts();
    assert_eq!(stmts.len(), 2);
    assert_eq!(stmts[0].get().syntax.kind, SyntaxKind::NodeExprStmt);
    assert_eq!(stmts[1].get().syntax.kind, SyntaxKind::NodeVarStmt);
}

#[test]
fn test_from_syntax_checks_kind() {
    assert!(Script::from_syntax(node(SyntaxKind::NodeScript, vec![])).is_some());
    assert!(Script::from_syntax(ident("x")).is_none());
    assert!(Stmt::from_syntax(node(SyntaxKind::NodeExprStmt, vec![])).is_some());
    assert!(Stmt::from_syntax(node(SyntaxKind::NodeBreakStmt, vec![])).is_none());
    assert!(Expr::from_syntax(ident("x")).is_some());
    assert!(Expr::from_syntax(node(SyntaxKind::NodeExprStmt, vec![])).is_none());
    assert!(VarDecl::from_syntax(node(SyntaxKind::NodeVarDecl, vec![])).is_some());
    assert!(BoolLit::from_syntax(node(SyntaxKind::NodeBoolLit, vec![])).is_some());
    assert!(NumLit::from_syntax(node(SyntaxKind::NodeNumLit, vec![])).is_some());
    assert!(IdentPat::from_syntax(ident("x")).is_some());
    assert!(StrLit::from_syntax(node(SyntaxKind::NodeStrLit, vec![])).is_some());
}

#[test]
fn test_bin_expr_accessors() {
    let tree = infix(ident("a"), SyntaxKind::TokenEqEqEq, "===", ident("b"));
    let bin = BinExpr { syntax: tree };
    assert_eq!(bin.op().unwrap(), BinOp::StrictEquals);
    assert_eq!(bin.left().unwrap().get().syntax.kind, SyntaxKind::NodeIdent);
    assert_eq!(bin.right().unwrap().get().syntax.kind, SyntaxKind::NodeIdent);

    let missing = BinExpr { syntax: node(SyntaxKind::NodeInfixExpr, vec![]) };
    assert_eq!(missing.op().unwrap_err(), TreeError::MissingOperator);
    assert_eq!(missing.left().unwrap_err(), TreeError::MissingChild);
    assert_eq!(missing.right().unwrap_err(), TreeError::MissingChild);
}

#[test]
fn test_bin_op_table() {
    let cases = [
        (SyntaxKind::TokenPlus, "+", BinOp::Add),
        (SyntaxKind::TokenAmp, "&", BinOp::BitAnd),
        (SyntaxKind::TokenPipe, "|", BinOp::BitOr),
        (SyntaxKind::TokenCaret, "^", BinOp::BitXor),
        (SyntaxKind::TokenSlash, "/", BinOp::Divide),
        (SyntaxKind::TokenEqEq, "==", BinOp::Equals),
        (SyntaxKind::TokenLt, "<", BinOp::Less),
        (SyntaxKind::TokenLtLt, "<<", BinOp::LeftShift),
        (SyntaxKind::TokenStar, "*", BinOp::Multiply),
        (SyntaxKind::TokenMinus, "-", BinOp::Subtract),
        (SyntaxKind::TokenEqEqEq, "===", BinOp::StrictEquals),
    ];
    for (kind, text, expected) in cases {
        let bin = BinExpr { syntax: infix(ident("a"), kind, text, ident("b")) };
        assert_eq!(bin.op().unwrap(), expected);
    }
}

fn logical(op: SyntaxKind, text: &str) -> as2_syntax::facade::LogicalExpr {
    as2_syntax::facade::LogicalExpr { syntax: infix(ident("a"), op, text, ident("b")) }
}

#[test]
fn test_logical_expr_accessors() {
    let and = logical(SyntaxKind::TokenAmpAmp, "&&");
    assert_eq!(and.op().unwrap(), LogicalOp::And);
    let or = logical(SyntaxKind::TokenPipePipe, "||");
    assert_eq!(or.op().unwrap(), LogicalOp::Or);
    assert_eq!(or.left().unwrap().get().syntax.kind, SyntaxKind::NodeIdent);
    assert_eq!(or.right().unwrap().get().syntax.kind, SyntaxKind::NodeIdent);
}

#[test]
fn test_bool_lit_value() {
    let t = BoolLit { syntax: node(SyntaxKind::NodeBoolLit, vec![token(SyntaxKind::TokenTrue, "true")]) };
    assert_eq!(t.value().unwrap(), true);
    let f = BoolLit { syntax: node(SyntaxKind::NodeBoolLit, vec![token(SyntaxKind::TokenFalse, "false")]) };
    assert_eq!(f.value().unwrap(), false);
    let other = BoolLit { syntax: node(SyntaxKind::NodeBoolLit, vec![token(SyntaxKind::TokenIdent, "x")]) };
    assert_eq!(other.value().unwrap_err(), TreeError::UnexpectedToken);
    let empty = BoolLit { syntax: node(SyntaxKind::NodeBoolLit, vec![]) };
    assert_eq!(empty.value().unwrap_err(), TreeError::MissingToken);
}

#[test]
fn test_ident_expr_name_sees_through_parens() {
    let plain = IdentExpr { syntax: ident("foo") };
    assert_eq!(plain.name().unwrap(), b"foo".to_vec());
    let wrapped = IdentExpr { syntax: paren(ident("bar")) };
    assert_eq!(wrapped.name().unwrap(), b"bar".to_vec());
}

#[test]
fn test_num_lit_text() {
    let lit = NumLit { syntax: node(SyntaxKind::NodeNumLit, vec![token(SyntaxKind::TokenNumLit, "42")]) };
    assert_eq!(lit.text().unwrap(), b"42".to_vec());
}

#[test]
fn test_str_lit_value_unescapes() {
    let lit = StrLit {
        syntax: node(SyntaxKind::NodeStrLit, vec![token(SyntaxKind::TokenStrLit, "\"a\\nb\"")]),
    };
    assert_eq!(lit.value().unwrap(), b"a\nb".to_vec());
    let bad = StrLit {
        syntax: node(SyntaxKind::NodeStrLit, vec![token(SyntaxKind::TokenStrLit, "\"\\x\"")]),
    };
    assert_eq!(bad.value().unwrap_err(), TreeError::UnexpectedToken);
}

#[test]
fn test_expr_stmt_scans_for_expression() {
    // The expression is found even after a non-expression child node.
    let stmt = ExprStmt {
        syntax: node(
            SyntaxKind::NodeExprStmt,
            vec![
                token(SyntaxKind::TokenUnilineWhitespace, " "),
                SyntaxSymbol::Node(node(SyntaxKind::NodeArgs, vec![])),
                SyntaxSymbol::Node(ident("x")),
            ],
        ),
    };
    assert_eq!(stmt.expr().unwrap().get().syntax.kind, SyntaxKind::NodeIdent);
    let empty = ExprStmt { syntax: node(SyntaxKind::NodeExprStmt, vec![]) };
    assert_eq!(empty.expr().unwrap_err(), TreeError::MissingChild);
}

#[test]
fn test_trace_stmt_value() {
    let stmt = TraceStmt {
        syntax: node(SyntaxKind::NodeExprStmt, vec![SyntaxSymbol::Node(ident("x"))]),
    };
    assert_eq!(stmt.value().unwrap().get().syntax.kind, SyntaxKind::NodeIdent);
}

#[test]
fn test_assign_expr_value_skips_target() {
    // The value is the first expression node after the `=` token, so the
    // target on the left is never taken for it.
    let assign = AssignExpr {
        syntax: node(
            SyntaxKind::NodeAssignExpr,
            vec![
                SyntaxSymbol::Node(ident("target")),
                token(SyntaxKind::TokenEq, "="),
                SyntaxSymbol::Node(ident("value")),
            ],
        ),
    };
    let value = assign.value().unwrap();
    let value_ident = IdentExpr { syntax: value.get().syntax.deep_clone() };
    assert_eq!(value_ident.name().unwrap(), b"value".to_vec());
    let target = assign.target().unwrap();
    assert!(matches!(target.get().cast(), PatCast::Ident(_)));
}

#[test]
fn test_var_decl_pat_and_init() {
    let with_init = VarDecl {
        syntax: node(
            SyntaxKind::NodeVarDecl,
            vec![
                SyntaxSymbol::Node(ident("x")),
                token(SyntaxKind::TokenEq, "="),
                SyntaxSymbol::Node(node(
                    SyntaxKind::NodeNumLit,
                    vec![token(SyntaxKind::TokenNumLit, "1")],
                )),
            ],
        ),
    };
    assert_eq!(with_init.pat().unwrap().get().name().unwrap(), b"x".to_vec());
    assert!(with_init.init().unwrap().is_some());

    let without_init = VarDecl {
        syntax: node(SyntaxKind::NodeVarDecl, vec![SyntaxSymbol::Node(ident("x"))]),
    };
    assert!(without_init.init().unwrap().is_none());
}

#[test]
fn test_call_expr_callee_and_args() {
    let call = as2_syntax::facade::CallExpr {
        syntax: node(
            SyntaxKind::NodeCallExpr,
            vec![
                SyntaxSymbol::Node(ident("f")),
                SyntaxSymbol::Node(node(
                    SyntaxKind::NodeArgs,
                    vec![
                        SyntaxSymbol::Node(ident("a")),
                        token(SyntaxKind::TokenComa, ","),
                        SyntaxSymbol::Node(ident("b")),
                    ],
                )),
            ],
        ),
    };
    assert_eq!(call.callee().unwrap().get().syntax.kind, SyntaxKind::NodeIdent);
    let args = call.args().unwrap();
    assert_eq!(args.len(), 2);
    let no_args = as2_syntax::facade::CallExpr {
        syntax: node(SyntaxKind::NodeCallExpr, vec![SyntaxSymbol::Node(ident("f"))]),
    };
    assert_eq!(no_args.args().unwrap_err(), TreeError::MissingChild);
}

#[test]
fn test_seq_expr_exprs() {
    let seq = SeqExpr {
        syntax: node(
            SyntaxKind::NodeSeqExpr,
            vec![
                SyntaxSymbol::Node(ident("a")),
                token(SyntaxKind::TokenComa, ","),
                SyntaxSymbol::Node(ident("b")),
                token(SyntaxKind::TokenComa, ","),
                SyntaxSymbol::Node(ident("c")),
            ],
        ),
    };
    assert_eq!(seq.exprs().unwrap().len(), 3);
}

#[test]
fn test_unary_and_update_ops() {
    let neg = UnaryExpr {
        syntax: node(
            SyntaxKind::NodePrefixExpr,
            vec![token(SyntaxKind::TokenMinus, "-"), SyntaxSymbol::Node(ident("a"))],
        ),
    };
    assert_eq!(neg.op().unwrap(), UnaryOp::Neg);
    assert_eq!(neg.arg().unwrap().get().syntax.kind, SyntaxKind::NodeIdent);

    let not = UnaryExpr {
        syntax: node(
            SyntaxKind::NodePrefixExpr,
            vec![token(SyntaxKind::TokenExcl, "!"), SyntaxSymbol::Node(ident("a"))],
        ),
    };
    assert_eq!(not.op().unwrap(), UnaryOp::Not);

    let pre_inc = UpdateExpr {
        syntax: node(
            SyntaxKind::NodePrefixExpr,
            vec![token(SyntaxKind::TokenPlusPlus, "++"), SyntaxSymbol::Node(ident("a"))],
        ),
    };
    assert_eq!(pre_inc.op().unwrap(), UpdateOp::PreInc);

    let post_dec = UpdateExpr {
        syntax: node(
            SyntaxKind::NodePostfixExpr,
            vec![SyntaxSymbol::Node(ident("a")), token(SyntaxKind::TokenMinusMinus, "--")],
        ),
    };
    assert_eq!(post_dec.op().unwrap(), UpdateOp::PostDec);

    let delete = UpdateExpr {
        syntax: node(
            SyntaxKind::NodePrefixExpr,
            vec![token(SyntaxKind::TokenDelete, "delete"), SyntaxSymbol::Node(ident("a"))],
        ),
    };
    assert_eq!(delete.op().unwrap(), UpdateOp::Delete);
    assert_eq!(delete.arg().unwrap().get().syntax.kind, SyntaxKind::NodeIdent);
}

#[test]
fn test_pat_cast_and_member_pat() {
    let ident_pat = Pat { syntax: ident("x") };
    assert!(matches!(ident_pat.cast(), PatCast::Ident(_)));

    let member = node(
        SyntaxKind::NodeIdentMemberExpr,
        vec![
            SyntaxSymbol::Node(ident("foo")),
            token(SyntaxKind::TokenDot, "."),
            SyntaxSymbol::Node(ident("bar")),
        ],
    );
    let member_pat = Pat { syntax: member };
    match member_pat.cast() {
        PatCast::Member(w) => {
            let base = w.get().base().unwrap();
            let key = w.get().key().unwrap();
            assert_eq!(
                IdentExpr { syntax: base.get().syntax.deep_clone() }.name().unwrap(),
                b"foo".to_vec()
            );
            assert_eq!(
                IdentExpr { syntax: key.get().syntax.deep_clone() }.name().unwrap(),
                b"bar".to_vec()
            );
        },
        _ => panic!("expected the member arm"),
    }

    let computed = node(
        SyntaxKind::NodeComputedMemberExpr,
        vec![
            SyntaxSymbol::Node(ident("foo")),
            SyntaxSymbol::Node(node(
                SyntaxKind::NodeStrLit,
                vec![token(SyntaxKind::TokenStrLit, "\"bar\"")],
            )),
        ],
    );
    assert!(matches!((Pat { syntax: computed }).cast(), PatCast::Member(_)));

    let bad = Pat { syntax: node(SyntaxKind::NodeArgs, vec![]) };
    assert!(matches!(bad.cast(), PatCast::SyntaxError));
}

#[test]
fn test_deep_clone_is_structural() {
    let tree = paren(infix(ident("a"), SyntaxKind::TokenPlus, "+", ident("b")));
    let copy = tree.deep_clone();
    // Two independently built identical subtrees compare equal.
    assert_eq!(tree, copy);
}

#[test]
fn test_first_token_descends_in_document_order() {
    let tree = node(
        SyntaxKind::NodeExprStmt,
        vec![
            SyntaxSymbol::Node(node(SyntaxKind::NodeArgs, vec![])),
            SyntaxSymbol::Node(ident("x")),
            token(SyntaxKind::TokenSemicolon, ";"),
        ],
    );
    // The childless first node holds no token, so the walk passes over it.
    let first = tree.first_token().expect("a token exists");
    assert_eq!(first.kind, SyntaxKind::TokenIdent);
    assert_eq!(first.text, b"x".to_vec());
}
