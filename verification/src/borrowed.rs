//! Borrowed-arena abstract syntax tree backend.
//!
//! Every node holds references into caller-owned storage: zero-copy, with
//! the shortest possible lifetime, for performance-sensitive read-only
//! analyses. Like the owned backend it is built directly by callers, not
//! from source text, and its accessors hand the same references back out.

use core::marker::PhantomData;

use vstd::prelude::*;

use crate::ast;
use crate::ast::{BinOp, ExprCast, LogicalOp, MaybeOwned, PatCast, StmtCast, UnaryOp, UpdateOp};
use crate::cst::TreeError;

verus! {

/// The backend whose nodes borrow from caller-owned arenas.
pub struct BorrowedSyntax<'a> {
    _phantom: PhantomData<&'a ()>,
}

impl<'a> ast::Syntax for BorrowedSyntax<'a> {
    type Script = Script<'a>;

    type Stmt = Stmt<'a>;

    type BreakStmt = BreakStmt;

    type ErrorStmt = ErrorStmt;

    type ExprStmt = ExprStmt<'a>;

    type TraceStmt = TraceStmt<'a>;

    type VarStmt = VarStmt<'a>;

    type VarDecl = VarDecl<'a>;

    type Expr = Expr<'a>;

    type AssignExpr = AssignExpr<'a>;

    type BinExpr = BinExpr<'a>;

    type BoolLit = BoolLit;

    type CallExpr = CallExpr<'a>;

    type ErrorExpr = ErrorExpr<'a>;

    type IdentExpr = IdentExpr<'a>;

    type LogicalExpr = LogicalExpr<'a>;

    type NumLit = NumLit<'a>;

    type SeqExpr = SeqExpr<'a>;

    type StrLit = StrLit<'a>;

    type UnaryExpr = UnaryExpr<'a>;

    type UpdateExpr = UpdateExpr<'a>;

    type Pat = Pat<'a>;

    type MemberPat = MemberPat<'a>;

    type IdentPat = IdentPat<'a>;
}

/// Copies a borrowed byte slice.
fn copy_slice(v: &[u8]) -> (r: Vec<u8>)
    ensures
        r@ == v@,
{
    let mut r: Vec<u8> = Vec::new();
    let mut j: usize = 0;
    while j < v.len()
        invariant
            j <= v@.len(),
            r@ == v@.subrange(0, j as int),
        decreases v@.len() - j,
    {
        r.push(v[j]);
        j = j + 1;
        assert(r@ =~= v@.subrange(0, j as int));
    }
    proof {
        assert(v@.subrange(0, v@.len() as int) =~= v@);
    }
    r
}

/// A borrowed script root.
#[derive(Debug, Eq, PartialEq, Hash)]
pub struct Script<'a> {
    pub loc: (),
    pub stmts: &'a [Stmt<'a>],
}

impl<'a> Script<'a> {
    /// The statements of the script, in order, borrowed from the arena.
    #[verifier::loop_isolation(false)]
    pub fn stmts<'b>(&'b self) -> (r: Vec<MaybeOwned<'b, Stmt<'a>>>)
        ensures
            r@.len() == self.stmts@.len(),
            forall|i: int| 0 <= i < r@.len() ==> r@[i].value() == self.stmts@[i],
    {
        let mut out: Vec<MaybeOwned<'b, Stmt<'a>>> = Vec::new();
        let mut j: usize = 0;
        while j < self.stmts.len()
            invariant
                j <= self.stmts@.len(),
                out@.len() == j,
                forall|k: int| 0 <= k < j ==> out@[k].value() == self.stmts@[k],
            decreases self.stmts@.len() - j,
        {
            out.push(MaybeOwned::Borrowed(&self.stmts[j]));
            j = j + 1;
        }
        out
    }
}

impl<'a> ast::Script for Script<'a> {
    type Ast = BorrowedSyntax<'a>;

    fn stmts<'b>(&'b self) -> Vec<MaybeOwned<'b, Stmt<'a>>> {
        self.stmts()
    }
}

/// A borrowed statement.
#[derive(Debug, Eq, PartialEq, Hash)]
pub enum Stmt<'a> {
    Break(BreakStmt),
    Error(ErrorStmt),
    Expr(ExprStmt<'a>),
    /// Abstract trace statement.
    Trace(TraceStmt<'a>),
}

impl<'a> Stmt<'a> {
    /// Downcasts the statement to its concrete production.
    pub fn cast<'b>(&'b self) -> (r: StmtCast<'b, BorrowedSyntax<'a>>)
        ensures
            match *self {
                Stmt::Break(b) => r matches StmtCast::Break(w) && w.value() == b,
                Stmt::Error(e) => r matches StmtCast::Error(w) && w.value() == e,
                Stmt::Expr(e) => r matches StmtCast::Expr(w) && w.value() == e,
                Stmt::Trace(t) => r matches StmtCast::Trace(w) && w.value() == t,
            },
    {
        match self {
            Stmt::Break(b) => StmtCast::Break(MaybeOwned::Borrowed(b)),
            Stmt::Error(e) => StmtCast::Error(MaybeOwned::Borrowed(e)),
            Stmt::Expr(e) => StmtCast::Expr(MaybeOwned::Borrowed(e)),
            Stmt::Trace(t) => StmtCast::Trace(MaybeOwned::Borrowed(t)),
        }
    }
}

impl<'a> ast::Stmt for Stmt<'a> {
    type Ast = BorrowedSyntax<'a>;

    fn cast<'b>(&'b self) -> StmtCast<'b, BorrowedSyntax<'a>> {
        self.cast()
    }
}

/// A borrowed break statement.
#[derive(Debug, Eq, PartialEq, Hash)]
pub struct BreakStmt {
    pub loc: (),
}

impl ast::BreakStmt for BreakStmt {

}

/// A borrowed invalid statement.
#[derive(Debug, Eq, PartialEq, Hash)]
pub struct ErrorStmt {
    pub loc: (),
}

impl ast::ErrorStmt for ErrorStmt {

}

/// A borrowed expression statement.
#[derive(Debug, Eq, PartialEq, Hash)]
pub struct ExprStmt<'a> {
    pub loc: (),
    pub expr: &'a Expr<'a>,
}

impl<'a> ExprStmt<'a> {
    /// The statement's expression.
    pub fn expr<'b>(&'b self) -> (r: Result<MaybeOwned<'b, Expr<'a>>, TreeError>)
        ensures
            r matches Ok(w) && w.value() == *self.expr,
    {
        Ok(MaybeOwned::Borrowed(self.expr))
    }
}

impl<'a> ast::ExprStmt for ExprStmt<'a> {
    type Ast = BorrowedSyntax<'a>;

    fn expr<'b>(&'b self) -> Result<MaybeOwned<'b, Expr<'a>>, TreeError> {
        self.expr()
    }
}

/// A borrowed abstract trace statement.
#[derive(Debug, Eq, PartialEq, Hash)]
pub struct TraceStmt<'a> {
    pub loc: (),
    pub value: &'a Expr<'a>,
}

impl<'a> TraceStmt<'a> {
    /// The traced value.
    pub fn value<'b>(&'b self) -> (r: Result<MaybeOwned<'b, Expr<'a>>, TreeError>)
        ensures
            r matches Ok(w) && w.value() == *self.value,
    {
        Ok(MaybeOwned::Borrowed(self.value))
    }
}

impl<'a> ast::TraceStmt for TraceStmt<'a> {
    type Ast = BorrowedSyntax<'a>;

    fn value<'b>(&'b self) -> Result<MaybeOwned<'b, Expr<'a>>, TreeError> {
        self.value()
    }
}

/// A borrowed variable statement.
#[derive(Debug, Eq, PartialEq, Hash)]
pub struct VarStmt<'a> {
    pub loc: (),
    pub decls: &'a [VarDecl<'a>],
}

impl<'a> VarStmt<'a> {
    /// The declarations of the statement, in order, borrowed from the
    /// arena.
    #[verifier::loop_isolation(false)]
    pub fn decls<'b>(&'b self) -> (r: Vec<MaybeOwned<'b, VarDecl<'a>>>)
        ensures
            r@.len() == self.decls@.len(),
            forall|i: int| 0 <= i < r@.len() ==> r@[i].value() == self.decls@[i],
    {
        let mut out: Vec<MaybeOwned<'b, VarDecl<'a>>> = Vec::new();
        let mut j: usize = 0;
        while j < self.decls.len()
            invariant
                j <= self.decls@.len(),
                out@.len() == j,
                forall|k: int| 0 <= k < j ==> out@[k].value() == self.decls@[k],
            decreases self.decls@.len() - j,
        {
            out.push(MaybeOwned::Borrowed(&self.decls[j]));
            j = j + 1;
        }
        out
    }
}

impl<'a> ast::VarStmt for VarStmt<'a> {
    type Ast = BorrowedSyntax<'a>;

    fn decls<'b>(&'b self) -> Vec<MaybeOwned<'b, VarDecl<'a>>> {
        self.decls()
    }
}

/// A borrowed variable declaration.
#[derive(Debug, Eq, PartialEq, Hash)]
pub struct VarDecl<'a> {
    pub loc: (),
    pub marker: PhantomData<&'a ()>,
}

impl<'a> ast::VarDecl for VarDecl<'a> {
    type Ast = BorrowedSyntax<'a>;
}

/// A borrowed expression.
#[derive(Debug, Eq, PartialEq, Hash)]
pub enum Expr<'a> {
    Assign(AssignExpr<'a>),
    Bin(BinExpr<'a>),
    Error(ErrorExpr<'a>),
    Logical(LogicalExpr<'a>),
    Sequence(SeqExpr<'a>),
    StrLit(StrLit<'a>),
}

impl<'a> Expr<'a> {
    /// Downcasts the expression to its concrete production. Every variant
    /// has an arm, so the downcast is total and never fails.
    pub fn cast<'b>(&'b self) -> (r: Result<ExprCast<'b, BorrowedSyntax<'a>>, TreeError>)
        ensures
            match *self {
                Expr::Assign(e) => r matches Ok(ExprCast::Assign(w)) && w.value() == e,
                Expr::Bin(e) => r matches Ok(ExprCast::Bin(w)) && w.value() == e,
                Expr::Error(e) => r matches Ok(ExprCast::Error(w)) && w.value() == e,
                Expr::Logical(e) => r matches Ok(ExprCast::Logical(w)) && w.value() == e,
                Expr::Sequence(e) => r matches Ok(ExprCast::Sequence(w)) && w.value() == e,
                Expr::StrLit(e) => r matches Ok(ExprCast::StrLit(w)) && w.value() == e,
            },
    {
        match self {
            Expr::Assign(e) => Ok(ExprCast::Assign(MaybeOwned::Borrowed(e))),
            Expr::Bin(e) => Ok(ExprCast::Bin(MaybeOwned::Borrowed(e))),
            Expr::Error(e) => Ok(ExprCast::Error(MaybeOwned::Borrowed(e))),
            Expr::Logical(e) => Ok(ExprCast::Logical(MaybeOwned::Borrowed(e))),
            Expr::Sequence(e) => Ok(ExprCast::Sequence(MaybeOwned::Borrowed(e))),
            Expr::StrLit(e) => Ok(ExprCast::StrLit(MaybeOwned::Borrowed(e))),
        }
    }
}

impl<'a> ast::Expr for Expr<'a> {
    type Ast = BorrowedSyntax<'a>;

    fn cast<'b>(&'b self) -> Result<ExprCast<'b, BorrowedSyntax<'a>>, TreeError> {
        self.cast()
    }
}

/// A borrowed assignment expression.
#[derive(Debug, Eq, PartialEq, Hash)]
pub struct AssignExpr<'a> {
    pub loc: (),
    pub target: &'a Pat<'a>,
    pub value: &'a Expr<'a>,
}

impl<'a> AssignExpr<'a> {
    /// The assigned pattern.
    pub fn target<'b>(&'b self) -> (r: Result<MaybeOwned<'b, Pat<'a>>, TreeError>)
        ensures
            r matches Ok(w) && w.value() == *self.target,
    {
        Ok(MaybeOwned::Borrowed(self.target))
    }

    /// The assigned value.
    pub fn value<'b>(&'b self) -> (r: Result<MaybeOwned<'b, Expr<'a>>, TreeError>)
        ensures
            r matches Ok(w) && w.value() == *self.value,
    {
        Ok(MaybeOwned::Borrowed(self.value))
    }
}

impl<'a> ast::AssignExpr for AssignExpr<'a> {
    type Ast = BorrowedSyntax<'a>;

    fn target<'b>(&'b self) -> Result<MaybeOwned<'b, Pat<'a>>, TreeError> {
        self.target()
    }

    fn value<'b>(&'b self) -> Result<MaybeOwned<'b, Expr<'a>>, TreeError> {
        self.value()
    }
}

/// A borrowed binary expression.
#[derive(Debug, Eq, PartialEq, Hash)]
pub struct BinExpr<'a> {
    pub loc: (),
    pub op: BinOp,
    pub left: &'a Expr<'a>,
    pub right: &'a Expr<'a>,
}

impl<'a> BinExpr<'a> {
    /// The operator.
    pub fn op(&self) -> (r: Result<BinOp, TreeError>)
        ensures
            r == Ok::<BinOp, TreeError>(self.op),
    {
        Ok(self.op)
    }

    /// The left operand.
    pub fn left<'b>(&'b self) -> (r: Result<MaybeOwned<'b, Expr<'a>>, TreeError>)
        ensures
            r matches Ok(w) && w.value() == *self.left,
    {
        Ok(MaybeOwned::Borrowed(self.left))
    }

    /// The right operand.
    pub fn right<'b>(&'b self) -> (r: Result<MaybeOwned<'b, Expr<'a>>, TreeError>)
        ensures
            r matches Ok(w) && w.value() == *self.right,
    {
        Ok(MaybeOwned::Borrowed(self.right))
    }
}

impl<'a> ast::BinExpr for BinExpr<'a> {
    type Ast = BorrowedSyntax<'a>;

    fn op(&self) -> Result<BinOp, TreeError> {
        self.op()
    }

    fn left<'b>(&'b self) -> Result<MaybeOwned<'b, Expr<'a>>, TreeError> {
        self.left()
    }

    fn right<'b>(&'b self) -> Result<MaybeOwned<'b, Expr<'a>>, TreeError> {
        self.right()
    }
}

/// A borrowed boolean literal.
#[derive(Debug, Eq, PartialEq, Hash)]
pub struct BoolLit {
    pub loc: (),
    pub value: bool,
}

impl BoolLit {
    /// The literal's value.
    pub fn value(&self) -> (r: Result<bool, TreeError>)
        ensures
            r == Ok::<bool, TreeError>(self.value),
    {
        Ok(self.value)
    }
}

impl ast::BoolLit for BoolLit {
    fn value(&self) -> Result<bool, TreeError> {
        self.value()
    }
}

/// A borrowed call expression.
#[derive(Debug, Eq, PartialEq, Hash)]
pub struct CallExpr<'a> {
    pub loc: (),
    pub callee: &'a Expr<'a>,
    pub args: &'a [Expr<'a>],
}

impl<'a> CallExpr<'a> {
    /// The called expression.
    pub fn callee<'b>(&'b self) -> (r: Result<MaybeOwned<'b, Expr<'a>>, TreeError>)
        ensures
            r matches Ok(w) && w.value() == *self.callee,
    {
        Ok(MaybeOwned::Borrowed(self.callee))
    }

    /// The call's arguments, in order, borrowed from the arena.
    #[verifier::loop_isolation(false)]
    pub fn args<'b>(&'b self) -> (r: Result<Vec<MaybeOwned<'b, Expr<'a>>>, TreeError>)
        ensures
            r matches Ok(v) && v@.len() == self.args@.len() && (forall|i: int|
                0 <= i < v@.len() ==> v@[i].value() == self.args@[i]),
    {
        let mut out: Vec<MaybeOwned<'b, Expr<'a>>> = Vec::new();
        let mut j: usize = 0;
        while j < self.args.len()
            invariant
                j <= self.args@.len(),
                out@.len() == j,
                forall|k: int| 0 <= k < j ==> out@[k].value() == self.args@[k],
            decreases self.args@.len() - j,
        {
            out.push(MaybeOwned::Borrowed(&self.args[j]));
            j = j + 1;
        }
        Ok(out)
    }
}

impl<'a> ast::CallExpr for CallExpr<'a> {
    type Ast = BorrowedSyntax<'a>;

    fn callee<'b>(&'b self) -> Result<MaybeOwned<'b, Expr<'a>>, TreeError> {
        self.callee()
    }

    fn args<'b>(&'b self) -> Result<Vec<MaybeOwned<'b, Expr<'a>>>, TreeError> {
        self.args()
    }
}

/// A borrowed error in expression position.
#[derive(Debug, Eq, PartialEq, Hash)]
pub struct ErrorExpr<'a> {
    pub loc: (),
    pub marker: PhantomData<&'a ()>,
}

impl<'a> ast::ErrorExpr for ErrorExpr<'a> {
    type Ast = BorrowedSyntax<'a>;
}

/// A borrowed identifier reference expression.
#[derive(Debug, Eq, PartialEq, Hash)]
pub struct IdentExpr<'a> {
    pub loc: (),
    pub name: &'a [u8],
}

impl<'a> IdentExpr<'a> {
    /// The identifier's name.
    pub fn name(&self) -> (r: Result<Vec<u8>, TreeError>)
        ensures
            r matches Ok(v) && v@ == self.name@,
    {
        Ok(copy_slice(self.name))
    }
}

impl<'a> ast::IdentExpr for IdentExpr<'a> {
    fn name(&self) -> Result<Vec<u8>, TreeError> {
        self.name()
    }
}

/// A borrowed logical expression.
#[derive(Debug, Eq, PartialEq, Hash)]
pub struct LogicalExpr<'a> {
    pub loc: (),
    pub op: LogicalOp,
    pub left: &'a Expr<'a>,
    pub right: &'a Expr<'a>,
}

impl<'a> LogicalExpr<'a> {
    /// The operator.
    pub fn op(&self) -> (r: Result<LogicalOp, TreeError>)
        ensures
            r == Ok::<LogicalOp, TreeError>(self.op),
    {
        Ok(self.op)
    }

    /// The left operand.
    pub fn left<'b>(&'b self) -> (r: Result<MaybeOwned<'b, Expr<'a>>, TreeError>)
        ensures
            r matches Ok(w) && w.value() == *self.left,
    {
        Ok(MaybeOwned::Borrowed(self.left))
    }

    /// The right operand.
    pub fn right<'b>(&'b self) -> (r: Result<MaybeOwned<'b, Expr<'a>>, TreeError>)
        ensures
            r matches Ok(w) && w.value() == *self.right,
    {
        Ok(MaybeOwned::Borrowed(self.right))
    }
}

impl<'a> ast::LogicalExpr for LogicalExpr<'a> {
    type Ast = BorrowedSyntax<'a>;

    fn op(&self) -> Result<LogicalOp, TreeError> {
        self.op()
    }

    fn left<'b>(&'b self) -> Result<MaybeOwned<'b, Expr<'a>>, TreeError> {
        self.left()
    }

    fn right<'b>(&'b self) -> Result<MaybeOwned<'b, Expr<'a>>, TreeError> {
        self.right()
    }
}

/// A borrowed number literal, held as its source text. Decoding the text
/// to a machine number is host arithmetic outside this library.
#[derive(Debug, Eq, PartialEq, Hash)]
pub struct NumLit<'a> {
    pub loc: (),
    pub text: &'a [u8],
}

impl<'a> NumLit<'a> {
    /// The literal's source text.
    pub fn text(&self) -> (r: Result<Vec<u8>, TreeError>)
        ensures
            r matches Ok(v) && v@ == self.text@,
    {
        Ok(copy_slice(self.text))
    }
}

impl<'a> ast::NumLit for NumLit<'a> {
    fn text(&self) -> Result<Vec<u8>, TreeError> {
        self.text()
    }
}

/// A borrowed sequence expression.
#[derive(Debug, Eq, PartialEq, Hash)]
pub struct SeqExpr<'a> {
    pub loc: (),
    pub exprs: &'a [Expr<'a>],
}

impl<'a> SeqExpr<'a> {
    /// The member expressions, in order, borrowed from the arena.
    #[verifier::loop_isolation(false)]
    pub fn exprs<'b>(&'b self) -> (r: Result<Vec<MaybeOwned<'b, Expr<'a>>>, TreeError>)
        ensures
            r matches Ok(v) && v@.len() == self.exprs@.len() && (forall|i: int|
                0 <= i < v@.len() ==> v@[i].value() == self.exprs@[i]),
    {
        let mut out: Vec<MaybeOwned<'b, Expr<'a>>> = Vec::new();
        let mut j: usize = 0;
        while j < self.exprs.len()
            invariant
                j <= self.exprs@.len(),
                out@.len() == j,
                forall|k: int| 0 <= k < j ==> out@[k].value() == self.exprs@[k],
            decreases self.exprs@.len() - j,
        {
            out.push(MaybeOwned::Borrowed(&self.exprs[j]));
            j = j + 1;
        }
        Ok(out)
    }
}

impl<'a> ast::SeqExpr for SeqExpr<'a> {
    type Ast = BorrowedSyntax<'a>;

    fn exprs<'b>(&'b self) -> Result<Vec<MaybeOwned<'b, Expr<'a>>>, TreeError> {
        self.exprs()
    }
}

/// A borrowed string literal, holding its already-unescaped value.
#[derive(Debug, Eq, PartialEq, Hash)]
pub struct StrLit<'a> {
    pub loc: (),
    pub value: &'a [u8],
}

impl<'a> StrLit<'a> {
    /// The literal's unescaped value.
    pub fn value(&self) -> (r: Result<Vec<u8>, TreeError>)
        ensures
            r matches Ok(v) && v@ == self.value@,
    {
        Ok(copy_slice(self.value))
    }
}

impl<'a> ast::StrLit for StrLit<'a> {
    fn value(&self) -> Result<Vec<u8>, TreeError> {
        self.value()
    }
}

/// A borrowed unary expression.
#[derive(Debug, Eq, PartialEq, Hash)]
pub struct UnaryExpr<'a> {
    pub loc: (),
    pub op: UnaryOp,
    pub arg: &'a Expr<'a>,
}

impl<'a> UnaryExpr<'a> {
    /// The operator.
    pub fn op(&self) -> (r: Result<UnaryOp, TreeError>)
        ensures
            r == Ok::<UnaryOp, TreeError>(self.op),
    {
        Ok(self.op)
    }

    /// The operand.
    pub fn arg<'b>(&'b self) -> (r: Result<MaybeOwned<'b, Expr<'a>>, TreeError>)
        ensures
            r matches Ok(w) && w.value() == *self.arg,
    {
        Ok(MaybeOwned::Borrowed(self.arg))
    }
}

impl<'a> ast::UnaryExpr for UnaryExpr<'a> {
    type Ast = BorrowedSyntax<'a>;

    fn op(&self) -> Result<UnaryOp, TreeError> {
        self.op()
    }

    fn arg<'b>(&'b self) -> Result<MaybeOwned<'b, Expr<'a>>, TreeError> {
        self.arg()
    }
}

/// A borrowed update expression.
#[derive(Debug, Eq, PartialEq, Hash)]
pub struct UpdateExpr<'a> {
    pub loc: (),
    pub op: UpdateOp,
    pub arg: &'a Expr<'a>,
}

impl<'a> UpdateExpr<'a> {
    /// The operator.
    pub fn op(&self) -> (r: Result<UpdateOp, TreeError>)
        ensures
            r == Ok::<UpdateOp, TreeError>(self.op),
    {
        Ok(self.op)
    }

    /// The operand.
    pub fn arg<'b>(&'b self) -> (r: Result<MaybeOwned<'b, Expr<'a>>, TreeError>)
        ensures
            r matches Ok(w) && w.value() == *self.arg,
    {
        Ok(MaybeOwned::Borrowed(self.arg))
    }
}

impl<'a> ast::UpdateExpr for UpdateExpr<'a> {
    type Ast = BorrowedSyntax<'a>;

    fn op(&self) -> Result<UpdateOp, TreeError> {
        self.op()
    }

    fn arg<'b>(&'b self) -> Result<MaybeOwned<'b, Expr<'a>>, TreeError> {
        self.arg()
    }
}

/// A borrowed pattern.
#[derive(Debug, Eq, PartialEq, Hash)]
pub enum Pat<'a> {
    Member(MemberPat<'a>),
    Ident(IdentPat<'a>),
    SyntaxError,
}

impl<'a> Pat<'a> {
    /// Downcasts the pattern to its concrete production.
    pub fn cast<'b>(&'b self) -> (r: PatCast<'b, BorrowedSyntax<'a>>)
        ensures
            match *self {
                Pat::Member(m) => r matches PatCast::Member(w) && w.value() == m,
                Pat::Ident(p) => r matches PatCast::Ident(w) && w.value() == p,
                Pat::SyntaxError => r is SyntaxError,
            },
    {
        match self {
            Pat::Member(m) => PatCast::Member(MaybeOwned::Borrowed(m)),
            Pat::Ident(p) => PatCast::Ident(MaybeOwned::Borrowed(p)),
            Pat::SyntaxError => PatCast::SyntaxError,
        }
    }
}

impl<'a> ast::Pat for Pat<'a> {
    type Ast = BorrowedSyntax<'a>;

    fn cast<'b>(&'b self) -> PatCast<'b, BorrowedSyntax<'a>> {
        self.cast()
    }
}

/// A borrowed member pattern.
#[derive(Debug, Eq, PartialEq, Hash)]
pub struct MemberPat<'a> {
    pub loc: (),
    pub base: &'a Expr<'a>,
    pub key: &'a Expr<'a>,
}

impl<'a> MemberPat<'a> {
    /// The expression whose member is named.
    pub fn base<'b>(&'b self) -> (r: Result<MaybeOwned<'b, Expr<'a>>, TreeError>)
        ensures
            r matches Ok(w) && w.value() == *self.base,
    {
        Ok(MaybeOwned::Borrowed(self.base))
    }

    /// The member key.
    pub fn key<'b>(&'b self) -> (r: Result<MaybeOwned<'b, Expr<'a>>, TreeError>)
        ensures
            r matches Ok(w) && w.value() == *self.key,
    {
        Ok(MaybeOwned::Borrowed(self.key))
    }
}

impl<'a> ast::MemberPat for MemberPat<'a> {
    type Ast = BorrowedSyntax<'a>;

    fn base<'b>(&'b self) -> Result<MaybeOwned<'b, Expr<'a>>, TreeError> {
        self.base()
    }

    fn key<'b>(&'b self) -> Result<MaybeOwned<'b, Expr<'a>>, TreeError> {
        self.key()
    }
}

/// A borrowed identifier pattern.
#[derive(Debug, Eq, PartialEq, Hash)]
pub struct IdentPat<'a> {
    pub loc: (),
    pub name: &'a [u8],
}

impl<'a> IdentPat<'a> {
    /// The identifier's name.
    pub fn name(&self) -> (r: Result<Vec<u8>, TreeError>)
        ensures
            r matches Ok(v) && v@ == self.name@,
    {
        Ok(copy_slice(self.name))
    }
}

impl<'a> ast::IdentPat for IdentPat<'a> {
    fn name(&self) -> Result<Vec<u8>, TreeError> {
        self.name()
    }
}

} // verus!
