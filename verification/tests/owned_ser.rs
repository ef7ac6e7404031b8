use as2_syntax::ast::{
    bin_op_symbol, logical_op_symbol, unary_op_symbol, update_op_symbol, BinOp, ExprCast,
    LogicalOp, PatCast, StmtCast, UnaryOp, UpdateOp,
};
use as2_syntax::owned::{
    AssignExpr, BinExpr, BreakStmt, Expr, ExprStmt, IdentPat, Pat, Script, SeqExpr, Stmt, StrLit,
    TraceStmt, VarDecl, VarStmt,
};
use as2_syntax::ser::{expr_to_json, script_to_json, stmt_to_json};

fn str_lit(value: &str) -> Expr {
    Expr::StrLit(StrLit { loc: (), value: value.as_bytes().to_vec() })
}

fn json(bytes: Vec<u8>) -> String {
    String::from_utf8(bytes).expect("the emitter writes UTF-8")
}

#[test]
fn test_eq_empty() {
    let left: SeqExpr = SeqExpr {
        loc: (),
        exprs: vec![str_lit("foo"), str_lit("bar")],
    };

    let right: SeqExpr = SeqExpr {
        loc: (),
        exprs: vec![str_lit("foo"), str_lit("bar")],
    };

    assert_eq!(left.exprs().unwrap().len(), 2);
    assert_eq!(left, right);
}

#[test]
fn test_serialize() {
    let script: Script = Script {
        loc: (),
        stmts: vec![Stmt::Break(BreakStmt { loc: () }), Stmt::Break(BreakStmt { loc: () })],
    };

    let actual_json = json(script_to_json(&script));
    let expected_json = String::from("{\"body\":[{\"type\":\"BreakStmt\"},{\"type\":\"BreakStmt\"}]}");

    assert_eq!(actual_json, expected_json);
}

#[test]
fn test_serialize_break_stmt() {
    let stmt = Stmt::Break(BreakStmt { loc: () });
    assert_eq!(json(stmt_to_json(&stmt)), "{\"type\":\"BreakStmt\"}");
}

#[test]
fn test_serialize_empty_script() {
    let script = Script { loc: (), stmts: vec![] };
    assert_eq!(json(script_to_json(&script)), "{\"body\":[]}");
}

#[test]
fn test_serialize_expr_stmt() {
    let stmt = Stmt::Expr(ExprStmt { loc: (), expr: Box::new(str_lit("hi")) });
    assert_eq!(
        json(stmt_to_json(&stmt)),
        "{\"type\":\"ExprStmt\",\"expr\":{\"type\":\"StrLit\",\"value\":\"hi\"}}"
    );
}

#[test]
fn test_serialize_trace_stmt() {
    let stmt = Stmt::Trace(TraceStmt { loc: (), value: Box::new(str_lit("x")) });
    assert_eq!(
        json(stmt_to_json(&stmt)),
        "{\"type\":\"TraceStmt\",\"value\":{\"type\":\"StrLit\",\"value\":\"x\"}}"
    );
}

#[test]
fn test_serialize_bin_expr() {
    let expr = Expr::Bin(BinExpr {
        loc: (),
        op: BinOp::StrictEquals,
        left: Box::new(str_lit("a")),
        right: Box::new(str_lit("b")),
    });
    assert_eq!(
        json(expr_to_json(&expr)),
        "{\"type\":\"BinExpr\",\"op\":\"===\",\"left\":{\"type\":\"StrLit\",\"value\":\"a\"},\
         \"right\":{\"type\":\"StrLit\",\"value\":\"b\"}}"
    );
}

#[test]
fn test_serialize_logical_expr() {
    let expr = Expr::Logical(as2_syntax::owned::LogicalExpr {
        loc: (),
        op: LogicalOp::And,
        left: Box::new(str_lit("a")),
        right: Box::new(str_lit("b")),
    });
    assert_eq!(
        json(expr_to_json(&expr)),
        "{\"type\":\"LogicalExpr\",\"op\":\"&&\",\"left\":{\"type\":\"StrLit\",\"value\":\"a\"},\
         \"right\":{\"type\":\"StrLit\",\"value\":\"b\"}}"
    );
}

#[test]
fn test_serialize_seq_expr() {
    let expr = Expr::Sequence(SeqExpr { loc: (), exprs: vec![str_lit("a"), str_lit("b")] });
    assert_eq!(
        json(expr_to_json(&expr)),
        "{\"type\":\"SeqExpr\",\"exprs\":[{\"type\":\"StrLit\",\"value\":\"a\"},\
         {\"type\":\"StrLit\",\"value\":\"b\"}]}"
    );
}

#[test]
fn test_serialize_assign_expr() {
    let expr = Expr::Assign(AssignExpr {
        loc: (),
        target: Box::new(Pat::IdentPat(IdentPat { loc: (), name: b"x".to_vec() })),
        value: Box::new(str_lit("v")),
    });
    assert_eq!(
        json(expr_to_json(&expr)),
        "{\"type\":\"AssignExpr\",\"value\":{\"type\":\"StrLit\",\"value\":\"v\"}}"
    );
}

#[test]
fn test_serialize_error_expr() {
    let expr = Expr::Error(as2_syntax::owned::ErrorExpr { loc: () });
    assert_eq!(json(expr_to_json(&expr)), "{\"type\":\"ErrorExpr\"}");
    let stmt = Stmt::Error(as2_syntax::owned::ErrorStmt { loc: () });
    assert_eq!(json(stmt_to_json(&stmt)), "{\"type\":\"ErrorStmt\"}");
}

#[test]
fn test_serialize_escapes_string_values() {
    let expr = str_lit("a\"b\\c\nd\te");
    assert_eq!(
        json(expr_to_json(&expr)),
        "{\"type\":\"StrLit\",\"value\":\"a\\\"b\\\\c\\nd\\te\"}"
    );
    // Other control bytes use a four-digit escape with lowercase hex.
    let ctl = Expr::StrLit(StrLit { loc: (), value: vec![0x01, 0x1F] });
    assert_eq!(
        json(expr_to_json(&ctl)),
        "{\"type\":\"StrLit\",\"value\":\"\\u0001\\u001f\"}"
    );
}

#[test]
fn test_op_symbols() {
    assert_eq!(bin_op_symbol(BinOp::Add), b"+".to_vec());
    assert_eq!(bin_op_symbol(BinOp::StrictEquals), b"===".to_vec());
    assert_eq!(bin_op_symbol(BinOp::NotStrictEquals), b"!==".to_vec());
    assert_eq!(bin_op_symbol(BinOp::InstanceOf), b"instanceof".to_vec());
    assert_eq!(bin_op_symbol(BinOp::LegacyAdd), b"add".to_vec());
    assert_eq!(bin_op_symbol(BinOp::UnsignedRightShift), b">>>".to_vec());
    assert_eq!(bin_op_symbol(BinOp::LeftShift), b"<<".to_vec());
    assert_eq!(logical_op_symbol(LogicalOp::And), b"&&".to_vec());
    assert_eq!(logical_op_symbol(LogicalOp::Or), b"||".to_vec());
    assert_eq!(unary_op_symbol(UnaryOp::TypeOf), b"typeof".to_vec());
    assert_eq!(unary_op_symbol(UnaryOp::Void), b"void".to_vec());
    assert_eq!(unary_op_symbol(UnaryOp::BitNot), b"~".to_vec());
    assert_eq!(update_op_symbol(UpdateOp::Delete), b"delete".to_vec());
    assert_eq!(update_op_symbol(UpdateOp::PreInc), b"++_".to_vec());
    assert_eq!(update_op_symbol(UpdateOp::PreDec), b"--_".to_vec());
    assert_eq!(update_op_symbol(UpdateOp::PostInc), b"_++".to_vec());
    assert_eq!(update_op_symbol(UpdateOp::PostDec), b"_--".to_vec());
}

#[test]
fn test_owned_stmt_cast() {
    let stmt = Stmt::Expr(ExprStmt { loc: (), expr: Box::new(str_lit("x")) });
    match stmt.cast() {
        StmtCast::Expr(w) => {
            let inner = w.get().expr().unwrap();
            assert_eq!(inner.get(), &str_lit("x"));
        },
        _ => panic!("expected the expression-statement arm"),
    }
    let brk = Stmt::Break(BreakStmt { loc: () });
    assert!(matches!(brk.cast(), StmtCast::Break(_)));
    let trace = Stmt::Trace(TraceStmt { loc: (), value: Box::new(str_lit("x")) });
    assert!(matches!(trace.cast(), StmtCast::Trace(_)));
}

#[test]
fn test_owned_expr_cast_is_total() {
    let exprs = vec![
        Expr::Assign(AssignExpr {
            loc: (),
            target: Box::new(Pat::SyntaxError),
            value: Box::new(str_lit("v")),
        }),
        Expr::Bin(BinExpr {
            loc: (),
            op: BinOp::Add,
            left: Box::new(str_lit("a")),
            right: Box::new(str_lit("b")),
        }),
        Expr::Error(as2_syntax::owned::ErrorExpr { loc: () }),
        Expr::Logical(as2_syntax::owned::LogicalExpr {
            loc: (),
            op: LogicalOp::Or,
            left: Box::new(str_lit("a")),
            right: Box::new(str_lit("b")),
        }),
        Expr::Sequence(SeqExpr { loc: (), exprs: vec![] }),
        str_lit("s"),
    ];
    for e in &exprs {
        assert!(e.cast().is_ok());
    }
    assert!(matches!(exprs[0].cast().unwrap(), ExprCast::Assign(_)));
    assert!(matches!(exprs[1].cast().unwrap(), ExprCast::Bin(_)));
    assert!(matches!(exprs[2].cast().unwrap(), ExprCast::Error(_)));
    assert!(matches!(exprs[3].cast().unwrap(), ExprCast::Logical(_)));
    assert!(matches!(exprs[4].cast().unwrap(), ExprCast::Sequence(_)));
    assert!(matches!(exprs[5].cast().unwrap(), ExprCast::StrLit(_)));
}

#[test]
fn test_owned_pat_cast() {
    let ident = Pat::IdentPat(IdentPat { loc: (), name: b"x".to_vec() });
    match ident.cast() {
        PatCast::Ident(w) => {
            assert_eq!(w.get().name().unwrap(), b"x".to_vec());
        },
        _ => panic!("expected the identifier arm"),
    }
    let member = Pat::MemberPat(as2_syntax::owned::MemberPat {
        loc: (),
        base: Box::new(str_lit("a")),
        key: Box::new(str_lit("b")),
    });
    assert!(matches!(member.cast(), PatCast::Member(_)));
    assert!(matches!(Pat::SyntaxError.cast(), PatCast::SyntaxError));
}

#[test]
fn test_owned_var_stmt_decls() {
    let stmt = VarStmt { loc: (), decls: vec![VarDecl { loc: () }, VarDecl { loc: () }] };
    assert_eq!(stmt.decls().len(), 2);
}

#[test]
fn test_owned_accessors() {
    let bin = BinExpr {
        loc: (),
        op: BinOp::Less,
        left: Box::new(str_lit("a")),
        right: Box::new(str_lit("b")),
    };
    assert_eq!(bin.op().unwrap(), BinOp::Less);
    assert_eq!(bin.left().unwrap().get(), &str_lit("a"));
    assert_eq!(bin.right().unwrap().get(), &str_lit("b"));

    let lit = StrLit { loc: (), value: b"abc".to_vec() };
    assert_eq!(lit.value().unwrap(), b"abc".to_vec());

    let b = as2_syntax::owned::BoolLit { loc: (), value: true };
    assert_eq!(b.value().unwrap(), true);

    let n = as2_syntax::owned::NumLit { loc: (), text: b"1.5".to_vec() };
    assert_eq!(n.text().unwrap(), b"1.5".to_vec());

    let i = as2_syntax::owned::IdentExpr { loc: (), name: b"foo".to_vec() };
    assert_eq!(i.name().unwrap(), b"foo".to_vec());

    let call = as2_syntax::owned::CallExpr {
        loc: (),
        callee: Box::new(str_lit("f")),
        args: vec![str_lit("a"), str_lit("b")],
    };
    assert_eq!(call.callee().unwrap().get(), &str_lit("f"));
    assert_eq!(call.args().unwrap().len(), 2);

    let unary = as2_syntax::owned::UnaryExpr {
        loc: (),
        op: UnaryOp::Not,
        arg: Box::new(str_lit("a")),
    };
    assert_eq!(unary.op().unwrap(), UnaryOp::Not);

    let update = as2_syntax::owned::UpdateExpr {
        loc: (),
        op: UpdateOp::PostInc,
        arg: Box::new(str_lit("a")),
    };
    assert_eq!(update.op().unwrap(), UpdateOp::PostInc);
    assert_eq!(update.arg().unwrap().get(), &str_lit("a"));
}

#[test]
fn test_owned_script_stmts() {
    let script = Script {
        loc: (),
        stmts: vec![
            Stmt::Break(BreakStmt { loc: () }),
            Stmt::Expr(ExprStmt { loc: (), expr: Box::new(str_lit("x")) }),
        ],
    };
    let stmts = script.stmts();
    assert_eq!(stmts.len(), 2);
    assert!(matches!(stmts[0].get(), Stmt::Break(_)));
    assert!(matches!(stmts[1].get(), Stmt::Expr(_)));
}

#[test]
fn test_serialize_var_stmt() {
    let stmt = VarStmt { loc: (), decls: vec![VarDecl { loc: () }, VarDecl { loc: () }] };
    assert_eq!(
        json(as2_syntax::ser::var_stmt_to_json(&stmt)),
        "{\"type\":\"VarStmt\",\"decls\":[{\"type\":\"VarDecl\"},{\"type\":\"VarDecl\"}]}"
    );
    let empty = VarStmt { loc: (), decls: vec![] };
    assert_eq!(
        json(as2_syntax::ser::var_stmt_to_json(&empty)),
        "{\"type\":\"VarStmt\",\"decls\":[]}"
    );
}
