//! Fully-owned abstract syntax tree backend.
//!
//! Every node recursively owns its children: the simplest backend to
//! construct, used for hand-built fixtures and for serialization round
//! trips. It is built directly by callers, not from source text, and its
//! accessors hand out references into the tree itself.

use vstd::prelude::*;

use crate::ast;
use crate::ast::{BinOp, ExprCast, LogicalOp, MaybeOwned, PatCast, StmtCast, UnaryOp, UpdateOp};
use crate::cst::TreeError;

verus! {

/// The backend whose nodes recursively own their children.
pub struct OwnedSyntax;

impl ast::Syntax for OwnedSyntax {
    type Script = Script;

    type Stmt = Stmt;

    type BreakStmt = BreakStmt;

    type ErrorStmt = ErrorStmt;

    type ExprStmt = ExprStmt;

    type TraceStmt = TraceStmt;

    type VarStmt = VarStmt;

    type VarDecl = VarDecl;

    type Expr = Expr;

    type AssignExpr = AssignExpr;

    type BinExpr = BinExpr;

    type BoolLit = BoolLit;

    type CallExpr = CallExpr;

    type ErrorExpr = ErrorExpr;

    type IdentExpr = IdentExpr;

    type LogicalExpr = LogicalExpr;

    type NumLit = NumLit;

    type SeqExpr = SeqExpr;

    type StrLit = StrLit;

    type UnaryExpr = UnaryExpr;

    type UpdateExpr = UpdateExpr;

    type Pat = Pat;

    type MemberPat = MemberPat;

    type IdentPat = IdentPat;
}

/// Copies a byte vector.
fn copy_bytes(v: &Vec<u8>) -> (r: Vec<u8>)
    ensures
        r@ == v@,
{
    let mut r: Vec<u8> = Vec::new();
    let mut j: usize = 0;
    while j < v.len()
        invariant
            j <= v@.len(),
            r@ == v@.subrange(0, j as int),
        decreases v@.len() - j,
    {
        r.push(v[j]);
        j = j + 1;
        assert(r@ =~= v@.subrange(0, j as int));
    }
    proof {
        assert(v@.subrange(0, v@.len() as int) =~= v@);
    }
    r
}

/// An owned script root.
#[derive(Debug, Eq, PartialEq, Hash)]
pub struct Script {
    pub loc: (),
    pub stmts: Vec<Stmt>,
}

impl Script {
    /// The statements of the script, in order, borrowed from the tree.
    #[verifier::loop_isolation(false)]
    pub fn stmts<'a>(&'a self) -> (r: Vec<MaybeOwned<'a, Stmt>>)
        ensures
            r@.len() == self.stmts@.len(),
            forall|i: int| 0 <= i < r@.len() ==> r@[i].value() == self.stmts@[i],
    {
        let mut out: Vec<MaybeOwned<'a, Stmt>> = Vec::new();
        let mut j: usize = 0;
        while j < self.stmts.len()
            invariant
                j <= self.stmts@.len(),
                out@.len() == j,
                forall|k: int| 0 <= k < j ==> out@[k].value() == self.stmts@[k],
            decreases self.stmts@.len() - j,
        {
            out.push(MaybeOwned::Borrowed(&self.stmts[j]));
            j = j + 1;
        }
        out
    }
}

impl ast::Script for Script {
    type Ast = OwnedSyntax;

    fn stmts<'a>(&'a self) -> Vec<MaybeOwned<'a, Stmt>> {
        self.stmts()
    }
}

/// An owned statement.
#[derive(Debug, Eq, PartialEq, Hash)]
pub enum Stmt {
    Break(BreakStmt),
    Error(ErrorStmt),
    Expr(ExprStmt),
    /// Abstract trace statement.
    Trace(TraceStmt),
}

impl Stmt {
    /// Downcasts the statement to its concrete production.
    pub fn cast<'a>(&'a self) -> (r: StmtCast<'a, OwnedSyntax>)
        ensures
            match *self {
                Stmt::Break(b) => r matches StmtCast::Break(w) && w.value() == b,
                Stmt::Error(e) => r matches StmtCast::Error(w) && w.value() == e,
                Stmt::Expr(e) => r matches StmtCast::Expr(w) && w.value() == e,
                Stmt::Trace(t) => r matches StmtCast::Trace(w) && w.value() == t,
            },
    {
        match self {
            Stmt::Break(b) => StmtCast::Break(MaybeOwned::Borrowed(b)),
            Stmt::Error(e) => StmtCast::Error(MaybeOwned::Borrowed(e)),
            Stmt::Expr(e) => StmtCast::Expr(MaybeOwned::Borrowed(e)),
            Stmt::Trace(t) => StmtCast::Trace(MaybeOwned::Borrowed(t)),
        }
    }
}

impl ast::Stmt for Stmt {
    type Ast = OwnedSyntax;

    fn cast<'a>(&'a self) -> StmtCast<'a, OwnedSyntax> {
        self.cast()
    }
}

/// An owned break statement.
#[derive(Debug, Eq, PartialEq, Hash)]
pub struct BreakStmt {
    pub loc: (),
}

impl ast::BreakStmt for BreakStmt {

}

/// An owned invalid statement.
#[derive(Debug, Eq, PartialEq, Hash)]
pub struct ErrorStmt {
    pub loc: (),
}

impl ast::ErrorStmt for ErrorStmt {

}

/// An owned expression statement.
#[derive(Debug, Eq, PartialEq, Hash)]
pub struct ExprStmt {
    pub loc: (),
    pub expr: Box<Expr>,
}

impl ExprStmt {
    /// The statement's expression.
    pub fn expr<'a>(&'a self) -> (r: Result<MaybeOwned<'a, Expr>, TreeError>)
        ensures
            r matches Ok(w) && w.value() == *self.expr,
    {
        Ok(MaybeOwned::Borrowed(&*self.expr))
    }
}

impl ast::ExprStmt for ExprStmt {
    type Ast = OwnedSyntax;

    fn expr<'a>(&'a self) -> Result<MaybeOwned<'a, Expr>, TreeError> {
        self.expr()
    }
}

/// An owned abstract trace statement.
#[derive(Debug, Eq, PartialEq, Hash)]
pub struct TraceStmt {
    pub loc: (),
    pub value: Box<Expr>,
}

impl TraceStmt {
    /// The traced value.
    pub fn value<'a>(&'a self) -> (r: Result<MaybeOwned<'a, Expr>, TreeError>)
        ensures
            r matches Ok(w) && w.value() == *self.value,
    {
        Ok(MaybeOwned::Borrowed(&*self.value))
    }
}

impl ast::TraceStmt for TraceStmt {
    type Ast = OwnedSyntax;

    fn value<'a>(&'a self) -> Result<MaybeOwned<'a, Expr>, TreeError> {
        self.value()
    }
}

/// An owned variable statement.
#[derive(Debug, Eq, PartialEq, Hash)]
pub struct VarStmt {
    pub loc: (),
    pub decls: Vec<VarDecl>,
}

impl VarStmt {
    /// The declarations of the statement, in order, borrowed from the tree.
    #[verifier::loop_isolation(false)]
    pub fn decls<'a>(&'a self) -> (r: Vec<MaybeOwned<'a, VarDecl>>)
        ensures
            r@.len() == self.decls@.len(),
            forall|i: int| 0 <= i < r@.len() ==> r@[i].value() == self.decls@[i],
    {
        let mut out: Vec<MaybeOwned<'a, VarDecl>> = Vec::new();
        let mut j: usize = 0;
        while j < self.decls.len()
            invariant
                j <= self.decls@.len(),
                out@.len() == j,
                forall|k: int| 0 <= k < j ==> out@[k].value() == self.decls@[k],
            decreases self.decls@.len() - j,
        {
            out.push(MaybeOwned::Borrowed(&self.decls[j]));
            j = j + 1;
        }
        out
    }
}

impl ast::VarStmt for VarStmt {
    type Ast = OwnedSyntax;

    fn decls<'a>(&'a self) -> Vec<MaybeOwned<'a, VarDecl>> {
        self.decls()
    }
}

/// An owned variable declaration.
#[derive(Debug, Eq, PartialEq, Hash)]
pub struct VarDecl {
    pub loc: (),
}

impl ast::VarDecl for VarDecl {
    type Ast = OwnedSyntax;
}

/// An owned expression.
#[derive(Debug, Eq, PartialEq, Hash)]
pub enum Expr {
    Assign(AssignExpr),
    Bin(BinExpr),
    Error(ErrorExpr),
    Logical(LogicalExpr),
    Sequence(SeqExpr),
    StrLit(StrLit),
}

impl Expr {
    /// Downcasts the expression to its concrete production. Every variant
    /// has an arm, so the downcast is total and never fails.
    pub fn cast<'a>(&'a self) -> (r: Result<ExprCast<'a, OwnedSyntax>, TreeError>)
        ensures
            match *self {
                Expr::Assign(e) => r matches Ok(ExprCast::Assign(w)) && w.value() == e,
                Expr::Bin(e) => r matches Ok(ExprCast::Bin(w)) && w.value() == e,
                Expr::Error(e) => r matches Ok(ExprCast::Error(w)) && w.value() == e,
                Expr::Logical(e) => r matches Ok(ExprCast::Logical(w)) && w.value() == e,
                Expr::Sequence(e) => r matches Ok(ExprCast::Sequence(w)) && w.value() == e,
                Expr::StrLit(e) => r matches Ok(ExprCast::StrLit(w)) && w.value() == e,
            },
    {
        match self {
            Expr::Assign(e) => Ok(ExprCast::Assign(MaybeOwned::Borrowed(e))),
            Expr::Bin(e) => Ok(ExprCast::Bin(MaybeOwned::Borrowed(e))),
            Expr::Error(e) => Ok(ExprCast::Error(MaybeOwned::Borrowed(e))),
            Expr::Logical(e) => Ok(ExprCast::Logical(MaybeOwned::Borrowed(e))),
            Expr::Sequence(e) => Ok(ExprCast::Sequence(MaybeOwned::Borrowed(e))),
            Expr::StrLit(e) => Ok(ExprCast::StrLit(MaybeOwned::Borrowed(e))),
        }
    }
}

impl ast::Expr for Expr {
    type Ast = OwnedSyntax;

    fn cast<'a>(&'a self) -> Result<ExprCast<'a, OwnedSyntax>, TreeError> {
        self.cast()
    }
}

/// An owned assignment expression.
#[derive(Debug, Eq, PartialEq, Hash)]
pub struct AssignExpr {
    pub loc: (),
    pub target: Box<Pat>,
    pub value: Box<Expr>,
}

impl AssignExpr {
    /// The assigned pattern.
    pub fn target<'a>(&'a self) -> (r: Result<MaybeOwned<'a, Pat>, TreeError>)
        ensures
            r matches Ok(w) && w.value() == *self.target,
    {
        Ok(MaybeOwned::Borrowed(&*self.target))
    }

    /// The assigned value.
    pub fn value<'a>(&'a self) -> (r: Result<MaybeOwned<'a, Expr>, TreeError>)
        ensures
            r matches Ok(w) && w.value() == *self.value,
    {
        Ok(MaybeOwned::Borrowed(&*self.value))
    }
}

impl ast::AssignExpr for AssignExpr {
    type Ast = OwnedSyntax;

    fn target<'a>(&'a self) -> Result<MaybeOwned<'a, Pat>, TreeError> {
        self.target()
    }

    fn value<'a>(&'a self) -> Result<MaybeOwned<'a, Expr>, TreeError> {
        self.value()
    }
}

/// An owned binary expression.
#[derive(Debug, Eq, PartialEq, Hash)]
pub struct BinExpr {
    pub loc: (),
    pub op: BinOp,
    pub left: Box<Expr>,
    pub right: Box<Expr>,
}

impl BinExpr {
    /// The operator.
    pub fn op(&self) -> (r: Result<BinOp, TreeError>)
        ensures
            r == Ok::<BinOp, TreeError>(self.op),
    {
        Ok(self.op)
    }

    /// The left operand.
    pub fn left<'a>(&'a self) -> (r: Result<MaybeOwned<'a, Expr>, TreeError>)
        ensures
            r matches Ok(w) && w.value() == *self.left,
    {
        Ok(MaybeOwned::Borrowed(&*self.left))
    }

    /// The right operand.
    pub fn right<'a>(&'a self) -> (r: Result<MaybeOwned<'a, Expr>, TreeError>)
        ensures
            r matches Ok(w) && w.value() == *self.right,
    {
        Ok(MaybeOwned::Borrowed(&*self.right))
    }
}

impl ast::BinExpr for BinExpr {
    type Ast = OwnedSyntax;

    fn op(&self) -> Result<BinOp, TreeError> {
        self.op()
    }

    fn left<'a>(&'a self) -> Result<MaybeOwned<'a, Expr>, TreeError> {
        self.left()
    }

    fn right<'a>(&'a self) -> Result<MaybeOwned<'a, Expr>, TreeError> {
        self.right()
    }
}

/// An owned boolean literal.
#[derive(Debug, Eq, PartialEq, Hash)]
pub struct BoolLit {
    pub loc: (),
    pub value: bool,
}

impl BoolLit {
    /// The literal's value.
    pub fn value(&self) -> (r: Result<bool, TreeError>)
        ensures
            r == Ok::<bool, TreeError>(self.value),
    {
        Ok(self.value)
    }
}

impl ast::BoolLit for BoolLit {
    fn value(&self) -> Result<bool, TreeError> {
        self.value()
    }
}

/// An owned call expression.
#[derive(Debug, Eq, PartialEq, Hash)]
pub struct CallExpr {
    pub loc: (),
    pub callee: Box<Expr>,
    pub args: Vec<Expr>,
}

impl CallExpr {
    /// The called expression.
    pub fn callee<'a>(&'a self) -> (r: Result<MaybeOwned<'a, Expr>, TreeError>)
        ensures
            r matches Ok(w) && w.value() == *self.callee,
    {
        Ok(MaybeOwned::Borrowed(&*self.callee))
    }

    /// The call's arguments, in order, borrowed from the tree.
    #[verifier::loop_isolation(false)]
    pub fn args<'a>(&'a self) -> (r: Result<Vec<MaybeOwned<'a, Expr>>, TreeError>)
        ensures
            r matches Ok(v) && v@.len() == self.args@.len() && (forall|i: int|
                0 <= i < v@.len() ==> v@[i].value() == self.args@[i]),
    {
        let mut out: Vec<MaybeOwned<'a, Expr>> = Vec::new();
        let mut j: usize = 0;
        while j < self.args.len()
            invariant
                j <= self.args@.len(),
                out@.len() == j,
                forall|k: int| 0 <= k < j ==> out@[k].value() == self.args@[k],
            decreases self.args@.len() - j,
        {
            out.push(MaybeOwned::Borrowed(&self.args[j]));
            j = j + 1;
        }
        Ok(out)
    }
}

impl ast::CallExpr for CallExpr {
    type Ast = OwnedSyntax;

    fn callee<'a>(&'a self) -> Result<MaybeOwned<'a, Expr>, TreeError> {
        self.callee()
    }

    fn args<'a>(&'a self) -> Result<Vec<MaybeOwned<'a, Expr>>, TreeError> {
        self.args()
    }
}

/// An owned error in expression position.
#[derive(Debug, Eq, PartialEq, Hash)]
pub struct ErrorExpr {
    pub loc: (),
}

impl ast::ErrorExpr for ErrorExpr {
    type Ast = OwnedSyntax;
}

/// An owned identifier reference expression.
#[derive(Debug, Eq, PartialEq, Hash)]
pub struct IdentExpr {
    pub loc: (),
    pub name: Vec<u8>,
}

impl IdentExpr {
    /// The identifier's name.
    pub fn name(&self) -> (r: Result<Vec<u8>, TreeError>)
        ensures
            r matches Ok(v) && v@ == self.name@,
    {
        Ok(copy_bytes(&self.name))
    }
}

impl ast::IdentExpr for IdentExpr {
    fn name(&self) -> Result<Vec<u8>, TreeError> {
        self.name()
    }
}

/// An owned logical expression.
#[derive(Debug, Eq, PartialEq, Hash)]
pub struct LogicalExpr {
    pub loc: (),
    pub op: LogicalOp,
    pub left: Box<Expr>,
    pub right: Box<Expr>,
}

impl LogicalExpr {
    /// The operator.
    pub fn op(&self) -> (r: Result<LogicalOp, TreeError>)
        ensures
            r == Ok::<LogicalOp, TreeError>(self.op),
    {
        Ok(self.op)
    }

    /// The left operand.
    pub fn left<'a>(&'a self) -> (r: Result<MaybeOwned<'a, Expr>, TreeError>)
        ensures
            r matches Ok(w) && w.value() == *self.left,
    {
        Ok(MaybeOwned::Borrowed(&*self.left))
    }

    /// The right operand.
    pub fn right<'a>(&'a self) -> (r: Result<MaybeOwned<'a, Expr>, TreeError>)
        ensures
            r matches Ok(w) && w.value() == *self.right,
    {
        Ok(MaybeOwned::Borrowed(&*self.right))
    }
}

impl ast::LogicalExpr for LogicalExpr {
    type Ast = OwnedSyntax;

    fn op(&self) -> Result<LogicalOp, TreeError> {
        self.op()
    }

    fn left<'a>(&'a self) -> Result<MaybeOwned<'a, Expr>, TreeError> {
        self.left()
    }

    fn right<'a>(&'a self) -> Result<MaybeOwned<'a, Expr>, TreeError> {
        self.right()
    }
}

/// An owned number literal, held as its source text. Decoding the text to a
/// machine number is host arithmetic outside this library.
#[derive(Debug, Eq, PartialEq, Hash)]
pub struct NumLit {
    pub loc: (),
    pub text: Vec<u8>,
}

impl NumLit {
    /// The literal's source text.
    pub fn text(&self) -> (r: Result<Vec<u8>, TreeError>)
        ensures
            r matches Ok(v) && v@ == self.text@,
    {
        Ok(copy_bytes(&self.text))
    }
}

impl ast::NumLit for NumLit {
    fn text(&self) -> Result<Vec<u8>, TreeError> {
        self.text()
    }
}

/// An owned sequence expression.
#[derive(Debug, Eq, PartialEq, Hash)]
pub struct SeqExpr {
    pub loc: (),
    pub exprs: Vec<Expr>,
}

impl SeqExpr {
    /// The member expressions, in order, borrowed from the tree.
    #[verifier::loop_isolation(false)]
    pub fn exprs<'a>(&'a self) -> (r: Result<Vec<MaybeOwned<'a, Expr>>, TreeError>)
        ensures
            r matches Ok(v) && v@.len() == self.exprs@.len() && (forall|i: int|
                0 <= i < v@.len() ==> v@[i].value() == self.exprs@[i]),
    {
        let mut out: Vec<MaybeOwned<'a, Expr>> = Vec::new();
        let mut j: usize = 0;
        while j < self.exprs.len()
            invariant
                j <= self.exprs@.len(),
                out@.len() == j,
                forall|k: int| 0 <= k < j ==> out@[k].value() == self.exprs@[k],
            decreases self.exprs@.len() - j,
        {
            out.push(MaybeOwned::Borrowed(&self.exprs[j]));
            j = j + 1;
        }
        Ok(out)
    }
}

impl ast::SeqExpr for SeqExpr {
    type Ast = OwnedSyntax;

    fn exprs<'a>(&'a self) -> Result<Vec<MaybeOwned<'a, Expr>>, TreeError> {
        self.exprs()
    }
}

/// An owned string literal, holding its already-unescaped value.
#[derive(Debug, Eq, PartialEq, Hash)]
pub struct StrLit {
    pub loc: (),
    pub value: Vec<u8>,
}

impl StrLit {
    /// The literal's unescaped value.
    pub fn value(&self) -> (r: Result<Vec<u8>, TreeError>)
        ensures
            r matches Ok(v) && v@ == self.value@,
    {
        Ok(copy_bytes(&self.value))
    }
}

impl ast::StrLit for StrLit {
    fn value(&self) -> Result<Vec<u8>, TreeError> {
        self.value()
    }
}

/// An owned unary expression.
#[derive(Debug, Eq, PartialEq, Hash)]
pub struct UnaryExpr {
    pub loc: (),
    pub op: UnaryOp,
    pub arg: Box<Expr>,
}

impl UnaryExpr {
    /// The operator.
    pub fn op(&self) -> (r: Result<UnaryOp, TreeError>)
        ensures
            r == Ok::<UnaryOp, TreeError>(self.op),
    {
        Ok(self.op)
    }

    /// The operand.
    pub fn arg<'a>(&'a self) -> (r: Result<MaybeOwned<'a, Expr>, TreeError>)
        ensures
            r matches Ok(w) && w.value() == *self.arg,
    {
        Ok(MaybeOwned::Borrowed(&*self.arg))
    }
}

impl ast::UnaryExpr for UnaryExpr {
    type Ast = OwnedSyntax;

    fn op(&self) -> Result<UnaryOp, TreeError> {
        self.op()
    }

    fn arg<'a>(&'a self) -> Result<MaybeOwned<'a, Expr>, TreeError> {
        self.arg()
    }
}

/// An owned update expression.
#[derive(Debug, Eq, PartialEq, Hash)]
pub struct UpdateExpr {
    pub loc: (),
    pub op: UpdateOp,
    pub arg: Box<Expr>,
}

impl UpdateExpr {
    /// The operator.
    pub fn op(&self) -> (r: Result<UpdateOp, TreeError>)
        ensures
            r == Ok::<UpdateOp, TreeError>(self.op),
    {
        Ok(self.op)
    }

    /// The operand.
    pub fn arg<'a>(&'a self) -> (r: Result<MaybeOwned<'a, Expr>, TreeError>)
        ensures
            r matches Ok(w) && w.value() == *self.arg,
    {
        Ok(MaybeOwned::Borrowed(&*self.arg))
    }
}

impl ast::UpdateExpr for UpdateExpr {
    type Ast = OwnedSyntax;

    fn op(&self) -> Result<UpdateOp, TreeError> {
        self.op()
    }

    fn arg<'a>(&'a self) -> Result<MaybeOwned<'a, Expr>, TreeError> {
        self.arg()
    }
}

/// An owned pattern.
#[derive(Debug, Eq, PartialEq, Hash)]
pub enum Pat {
    MemberPat(MemberPat),
    IdentPat(IdentPat),
    SyntaxError,
}

impl Pat {
    /// Downcasts the pattern to its concrete production.
    pub fn cast<'a>(&'a self) -> (r: PatCast<'a, OwnedSyntax>)
        ensures
            match *self {
                Pat::MemberPat(m) => r matches PatCast::Member(w) && w.value() == m,
                Pat::IdentPat(p) => r matches PatCast::Ident(w) && w.value() == p,
                Pat::SyntaxError => r is SyntaxError,
            },
    {
        match self {
            Pat::MemberPat(m) => PatCast::Member(MaybeOwned::Borrowed(m)),
            Pat::IdentPat(p) => PatCast::Ident(MaybeOwned::Borrowed(p)),
            Pat::SyntaxError => PatCast::SyntaxError,
        }
    }
}

impl ast::Pat for Pat {
    type Ast = OwnedSyntax;

    fn cast<'a>(&'a self) -> PatCast<'a, OwnedSyntax> {
        self.cast()
    }
}

/// An owned member pattern.
#[derive(Debug, Eq, PartialEq, Hash)]
pub struct MemberPat {
    pub loc: (),
    pub base: Box<Expr>,
    pub key: Box<Expr>,
}

impl MemberPat {
    /// The expression whose member is named.
    pub fn base<'a>(&'a self) -> (r: Result<MaybeOwned<'a, Expr>, TreeError>)
        ensures
            r matches Ok(w) && w.value() == *self.base,
    {
        Ok(MaybeOwned::Borrowed(&*self.base))
    }

    /// The member key.
    pub fn key<'a>(&'a self) -> (r: Result<MaybeOwned<'a, Expr>, TreeError>)
        ensures
            r matches Ok(w) && w.value() == *self.key,
    {
        Ok(MaybeOwned::Borrowed(&*self.key))
    }
}

impl ast::MemberPat for MemberPat {
    type Ast = OwnedSyntax;

    fn base<'a>(&'a self) -> Result<MaybeOwned<'a, Expr>, TreeError> {
        self.base()
    }

    fn key<'a>(&'a self) -> Result<MaybeOwned<'a, Expr>, TreeError> {
        self.key()
    }
}

/// An owned identifier pattern.
#[derive(Debug, Eq, PartialEq, Hash)]
pub struct IdentPat {
    pub loc: (),
    pub name: Vec<u8>,
}

impl IdentPat {
    /// The identifier's name.
    pub fn name(&self) -> (r: Result<Vec<u8>, TreeError>)
        ensures
            r matches Ok(v) && v@ == self.name@,
    {
        Ok(copy_bytes(&self.name))
    }
}

impl ast::IdentPat for IdentPat {
    fn name(&self) -> Result<Vec<u8>, TreeError> {
        self.name()
    }
}

} // verus!
