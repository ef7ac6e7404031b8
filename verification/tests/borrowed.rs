use as2_syntax::ast::{BinOp, ExprCast, PatCast, StmtCast};
use as2_syntax::borrowed::{
    BinExpr, BreakStmt, Expr, ExprStmt, IdentPat, Pat, Script, SeqExpr, Stmt, StrLit,
};

#[test]
fn borrowed_test_eq_empty() {
    let left_foo = Expr::StrLit(StrLit { loc: (), value: b"foo" });
    let left_bar = Expr::StrLit(StrLit { loc: (), value: b"bar" });
    let left_seq = vec![left_foo, left_bar];
    let left = SeqExpr {
        loc: (),
        exprs: &left_seq,
    };

    let right_foo = Expr::StrLit(StrLit { loc: (), value: b"foo" });
    let right_bar = Expr::StrLit(StrLit { loc: (), value: b"bar" });
    let right_seq = vec![right_foo, right_bar];
    let right = SeqExpr {
        loc: (),
        exprs: &right_seq,
    };

    assert_eq!(left.exprs().unwrap().len(), 2);
    assert_eq!(left, right);
}

#[test]
fn test_borrowed_casts_and_accessors() {
    let lit_a = Expr::StrLit(StrLit { loc: (), value: b"a" });
    let lit_b = Expr::StrLit(StrLit { loc: (), value: b"b" });
    let bin = Expr::Bin(BinExpr { loc: (), op: BinOp::Add, left: &lit_a, right: &lit_b });
    match bin.cast().unwrap() {
        ExprCast::Bin(w) => {
            assert_eq!(w.get().op().unwrap(), BinOp::Add);
            assert_eq!(w.get().left().unwrap().get(), &lit_a);
            assert_eq!(w.get().right().unwrap().get(), &lit_b);
        },
        _ => panic!("expected the binary arm"),
    }

    let stmt = Stmt::Expr(ExprStmt { loc: (), expr: &lit_a });
    match stmt.cast() {
        StmtCast::Expr(w) => {
            assert_eq!(w.get().expr().unwrap().get(), &lit_a);
        },
        _ => panic!("expected the expression-statement arm"),
    }
    let brk = Stmt::Break(BreakStmt { loc: () });
    assert!(matches!(brk.cast(), StmtCast::Break(_)));

    let pat = Pat::Ident(IdentPat { loc: (), name: b"x" });
    match pat.cast() {
        PatCast::Ident(w) => {
            assert_eq!(w.get().name().unwrap(), b"x".to_vec());
        },
        _ => panic!("expected the identifier arm"),
    }

    let stmts = vec![Stmt::Break(BreakStmt { loc: () })];
    let script = Script { loc: (), stmts: &stmts };
    assert_eq!(script.stmts().len(), 1);
}
