//! Generic grammar abstraction.
//!
//! One contract, [`Syntax`], names every grammar production type as an
//! associated type, so the statement, expression and pattern dispatch enums
//! ([`StmtCast`], [`ExprCast`], [`PatCast`]) and the per-production traits
//! are written once and instantiated against any backend: the fully-owned
//! tree, the borrowed-arena tree, or the lazy view over the concrete
//! syntax tree.
//!
//! The traits declare the shared surface; the exact behaviour of each
//! backend is stated on the backend's own methods.

use vstd::prelude::*;

use crate::cst::TreeError;

verus! {

/// Names every grammar production type of one backend.
pub trait Syntax: Sized {
    type Script;

    type Stmt;

    type BreakStmt;

    type ErrorStmt;

    type ExprStmt;

    type TraceStmt;

    type VarStmt;

    type VarDecl;

    type Expr;

    type AssignExpr;

    type BinExpr;

    type BoolLit;

    type CallExpr;

    type ErrorExpr;

    type IdentExpr;

    type LogicalExpr;

    type NumLit;

    type SeqExpr;

    type StrLit;

    type UnaryExpr;

    type UpdateExpr;

    type Pat;

    type MemberPat;

    type IdentPat;
}

/// A value that is either borrowed from a backing store or freshly built:
/// the owned backend hands out references into itself, while the tree-backed
/// facade builds its wrappers on demand.
#[derive(Debug)]
pub enum MaybeOwned<'a, T> {
    Borrowed(&'a T),
    Owned(T),
}

impl<'a, T> MaybeOwned<'a, T> {
    /// The carried value.
    pub open spec fn value(self) -> T {
        match self {
            MaybeOwned::Borrowed(b) => *b,
            MaybeOwned::Owned(o) => o,
        }
    }

    /// Borrows the carried value.
    pub fn get(&self) -> (r: &T)
        ensures
            *r == self.value(),
    {
        match self {
            MaybeOwned::Borrowed(b) => b,
            MaybeOwned::Owned(o) => o,
        }
    }
}

/// The result of downcasting a statement to its concrete production.
pub enum StmtCast<'a, S: Syntax> {
    Break(MaybeOwned<'a, S::BreakStmt>),
    Error(MaybeOwned<'a, S::ErrorStmt>),
    Trace(MaybeOwned<'a, S::TraceStmt>),
    Expr(MaybeOwned<'a, S::ExprStmt>),
    VarStmt(MaybeOwned<'a, S::VarStmt>),
}

/// The result of downcasting an expression to its concrete production.
pub enum ExprCast<'a, S: Syntax> {
    Assign(MaybeOwned<'a, S::AssignExpr>),
    BoolLit(MaybeOwned<'a, S::BoolLit>),
    Bin(MaybeOwned<'a, S::BinExpr>),
    Call(MaybeOwned<'a, S::CallExpr>),
    Error(MaybeOwned<'a, S::ErrorExpr>),
    Ident(MaybeOwned<'a, S::IdentExpr>),
    Logical(MaybeOwned<'a, S::LogicalExpr>),
    NumLit(MaybeOwned<'a, S::NumLit>),
    Sequence(MaybeOwned<'a, S::SeqExpr>),
    StrLit(MaybeOwned<'a, S::StrLit>),
    Unary(MaybeOwned<'a, S::UnaryExpr>),
    Update(MaybeOwned<'a, S::UpdateExpr>),
}

/// The result of downcasting a pattern to its concrete production.
pub enum PatCast<'a, S: Syntax> {
    Member(MaybeOwned<'a, S::MemberPat>),
    Ident(MaybeOwned<'a, S::IdentPat>),
    SyntaxError,
}

/// All the binary operators.
#[derive(Copy, Clone, Debug, Eq, PartialEq, Hash, Structural)]
pub enum BinOp {
    /// Operator `+`
    Add,
    /// Operator `&`
    BitAnd,
    /// Operator `|`
    BitOr,
    /// Operator `^`
    BitXor,
    /// Operator `/`
    Divide,
    /// Operator `==`
    Equals,
    /// Operator `>`
    Greater,
    /// Operator `instanceof`
    InstanceOf,
    /// Operator `add`
    LegacyAdd,
    /// Operator `<<`
    LeftShift,
    /// Operator `<`
    Less,
    /// Operator `*`
    Multiply,
    /// Operator `!=`
    NotEquals,
    /// Operator `!==`
    NotStrictEquals,
    /// Operator `%`
    Remainder,
    /// Operator `>>`
    SignedRightShift,
    /// Operator `-`
    Subtract,
    /// Operator `===`
    StrictEquals,
    /// Operator `>>>`
    UnsignedRightShift,
}

/// The canonical textual symbol of the operator, as the wire contract
/// writes it.
pub open spec fn spec_bin_op_symbol(op: BinOp) -> Seq<u8> {
    match op {
        BinOp::Add => seq![43u8],
        BinOp::BitAnd => seq![38u8],
        BinOp::BitOr => seq![124u8],
        BinOp::BitXor => seq![94u8],
        BinOp::Divide => seq![47u8],
        BinOp::Equals => seq![61u8, 61u8],
        BinOp::Greater => seq![62u8],
        BinOp::InstanceOf => seq![105u8, 110u8, 115u8, 116u8, 97u8, 110u8, 99u8, 101u8, 111u8, 102u8],
        BinOp::LegacyAdd => seq![97u8, 100u8, 100u8],
        BinOp::LeftShift => seq![60u8, 60u8],
        BinOp::Less => seq![60u8],
        BinOp::Multiply => seq![42u8],
        BinOp::NotEquals => seq![33u8, 61u8],
        BinOp::NotStrictEquals => seq![33u8, 61u8, 61u8],
        BinOp::Remainder => seq![37u8],
        BinOp::SignedRightShift => seq![62u8, 62u8],
        BinOp::Subtract => seq![45u8],
        BinOp::StrictEquals => seq![61u8, 61u8, 61u8],
        BinOp::UnsignedRightShift => seq![62u8, 62u8, 62u8],
    }
}

/// The canonical textual symbol of the operator.
pub fn bin_op_symbol(op: BinOp) -> (r: Vec<u8>)
    ensures
        r@ == spec_bin_op_symbol(op),
{
    let mut r: Vec<u8> = Vec::new();
    match op {
        BinOp::Add => { r.push(43); },
        BinOp::BitAnd => { r.push(38); },
        BinOp::BitOr => { r.push(124); },
        BinOp::BitXor => { r.push(94); },
        BinOp::Divide => { r.push(47); },
        BinOp::Equals => { r.push(61); r.push(61); },
        BinOp::Greater => { r.push(62); },
        BinOp::InstanceOf => { r.push(105); r.push(110); r.push(115); r.push(116); r.push(97); r.push(110); r.push(99); r.push(101); r.push(111); r.push(102); },
        BinOp::LegacyAdd => { r.push(97); r.push(100); r.push(100); },
        BinOp::LeftShift => { r.push(60); r.push(60); },
        BinOp::Less => { r.push(60); },
        BinOp::Multiply => { r.push(42); },
        BinOp::NotEquals => { r.push(33); r.push(61); },
        BinOp::NotStrictEquals => { r.push(33); r.push(61); r.push(61); },
        BinOp::Remainder => { r.push(37); },
        BinOp::SignedRightShift => { r.push(62); r.push(62); },
        BinOp::Subtract => { r.push(45); },
        BinOp::StrictEquals => { r.push(61); r.push(61); r.push(61); },
        BinOp::UnsignedRightShift => { r.push(62); r.push(62); r.push(62); },
    }
    proof {
        assert(r@ =~= spec_bin_op_symbol(op));
    }
    r
}

/// All the logical operators.
#[derive(Copy, Clone, Debug, Eq, PartialEq, Hash, Structural)]
pub enum LogicalOp {
    /// Operator `&&`
    And,
    /// Operator `||`
    Or,
}

/// The canonical textual symbol of the operator, as the wire contract
/// writes it.
pub open spec fn spec_logical_op_symbol(op: LogicalOp) -> Seq<u8> {
    match op {
        LogicalOp::And => seq![38u8, 38u8],
        LogicalOp::Or => seq![124u8, 124u8],
    }
}

/// The canonical textual symbol of the operator.
pub fn logical_op_symbol(op: LogicalOp) -> (r: Vec<u8>)
    ensures
        r@ == spec_logical_op_symbol(op),
{
    let mut r: Vec<u8> = Vec::new();
    match op {
        LogicalOp::And => { r.push(38); r.push(38); },
        LogicalOp::Or => { r.push(124); r.push(124); },
    }
    proof {
        assert(r@ =~= spec_logical_op_symbol(op));
    }
    r
}

/// All the unary operators.
#[derive(Copy, Clone, Debug, Eq, PartialEq, Hash, Structural)]
pub enum UnaryOp {
    /// Operator `~`
    BitNot,
    /// Operator `!`
    Not,
    /// Operator `-`
    Neg,
    /// Operator `+`
    ToNum,
    /// Operator `typeof`
    TypeOf,
    /// Operator `void`
    Void,
}

/// The canonical textual symbol of the operator, as the wire contract
/// writes it.
pub open spec fn spec_unary_op_symbol(op: UnaryOp) -> Seq<u8> {
    match op {
        UnaryOp::BitNot => seq![126u8],
        UnaryOp::Not => seq![33u8],
        UnaryOp::Neg => seq![45u8],
        UnaryOp::ToNum => seq![43u8],
        UnaryOp::TypeOf => seq![116u8, 121u8, 112u8, 101u8, 111u8, 102u8],
        UnaryOp::Void => seq![118u8, 111u8, 105u8, 100u8],
    }
}

/// The canonical textual symbol of the operator.
pub fn unary_op_symbol(op: UnaryOp) -> (r: Vec<u8>)
    ensures
        r@ == spec_unary_op_symbol(op),
{
    let mut r: Vec<u8> = Vec::new();
    match op {
        UnaryOp::BitNot => { r.push(126); },
        UnaryOp::Not => { r.push(33); },
        UnaryOp::Neg => { r.push(45); },
        UnaryOp::ToNum => { r.push(43); },
        UnaryOp::TypeOf => { r.push(116); r.push(121); r.push(112); r.push(101); r.push(111); r.push(102); },
        UnaryOp::Void => { r.push(118); r.push(111); r.push(105); r.push(100); },
    }
    proof {
        assert(r@ =~= spec_unary_op_symbol(op));
    }
    r
}

/// All the update operators.
#[derive(Copy, Clone, Debug, Eq, PartialEq, Hash, Structural)]
pub enum UpdateOp {
    /// Operator prefix `delete`
    Delete,
    /// Operator prefix `--`
    PreDec,
    /// Operator prefix `++`
    PreInc,
    /// Operator postfix `--`
    PostDec,
    /// Operator postfix `++`
    PostInc,
}

/// The canonical textual symbol of the operator, as the wire contract
/// writes it.
pub open spec fn spec_update_op_symbol(op: UpdateOp) -> Seq<u8> {
    match op {
        UpdateOp::Delete => seq![100u8, 101u8, 108u8, 101u8, 116u8, 101u8],
        UpdateOp::PreDec => seq![45u8, 45u8, 95u8],
        UpdateOp::PreInc => seq![43u8, 43u8, 95u8],
        UpdateOp::PostDec => seq![95u8, 45u8, 45u8],
        UpdateOp::PostInc => seq![95u8, 43u8, 43u8],
    }
}

/// The canonical textual symbol of the operator.
pub fn update_op_symbol(op: UpdateOp) -> (r: Vec<u8>)
    ensures
        r@ == spec_update_op_symbol(op),
{
    let mut r: Vec<u8> = Vec::new();
    match op {
        UpdateOp::Delete => { r.push(100); r.push(101); r.push(108); r.push(101); r.push(116); r.push(101); },
        UpdateOp::PreDec => { r.push(45); r.push(45); r.push(95); },
        UpdateOp::PreInc => { r.push(43); r.push(43); r.push(95); },
        UpdateOp::PostDec => { r.push(95); r.push(45); r.push(45); },
        UpdateOp::PostInc => { r.push(95); r.push(43); r.push(43); },
    }
    proof {
        assert(r@ =~= spec_update_op_symbol(op));
    }
    r
}

/// Script root node.
pub trait Script {
    type Ast: Syntax;

    /// The statements of the script, in order.
    fn stmts<'a>(&'a self) -> Vec<MaybeOwned<'a, <Self::Ast as Syntax>::Stmt>>;
}

/// Any statement.
pub trait Stmt {
    type Ast: Syntax;

    /// Downcasts the statement to its concrete production.
    fn cast<'a>(&'a self) -> StmtCast<'a, Self::Ast>;
}

/// Break statement.
pub trait BreakStmt {

}

/// Invalid statement.
pub trait ErrorStmt {

}

/// Expression statement.
pub trait ExprStmt {
    type Ast: Syntax;

    /// The statement's expression.
    fn expr<'a>(&'a self) -> Result<MaybeOwned<'a, <Self::Ast as Syntax>::Expr>, TreeError>;
}

/// Abstract trace statement.
pub trait TraceStmt {
    type Ast: Syntax;

    /// The traced value.
    fn value<'a>(&'a self) -> Result<MaybeOwned<'a, <Self::Ast as Syntax>::Expr>, TreeError>;
}

/// Variable statement, declaring one or more variables.
pub trait VarStmt {
    type Ast: Syntax;

    /// The declarations of the statement, in order.
    fn decls<'a>(&'a self) -> Vec<MaybeOwned<'a, <Self::Ast as Syntax>::VarDecl>>;
}

/// A single variable declaration inside a variable statement.
pub trait VarDecl {
    type Ast: Syntax;
}

/// Any expression.
pub trait Expr {
    type Ast: Syntax;

    /// Downcasts the expression to its concrete production. A tree whose
    /// shape breaks the parser's contract yields the error instead.
    fn cast<'a>(&'a self) -> Result<ExprCast<'a, Self::Ast>, TreeError>;
}

/// Assignment expression.
pub trait AssignExpr {
    type Ast: Syntax;

    /// The assigned pattern.
    fn target<'a>(&'a self) -> Result<MaybeOwned<'a, <Self::Ast as Syntax>::Pat>, TreeError>;

    /// The assigned value.
    fn value<'a>(&'a self) -> Result<MaybeOwned<'a, <Self::Ast as Syntax>::Expr>, TreeError>;
}

/// Binary expression.
pub trait BinExpr {
    type Ast: Syntax;

    /// The operator.
    fn op(&self) -> Result<BinOp, TreeError>;

    /// The left operand.
    fn left<'a>(&'a self) -> Result<MaybeOwned<'a, <Self::Ast as Syntax>::Expr>, TreeError>;

    /// The right operand.
    fn right<'a>(&'a self) -> Result<MaybeOwned<'a, <Self::Ast as Syntax>::Expr>, TreeError>;
}

/// Boolean literal expression.
pub trait BoolLit {
    /// The literal's value.
    fn value(&self) -> Result<bool, TreeError>;
}

/// Function call expression.
pub trait CallExpr {
    type Ast: Syntax;

    /// The called expression.
    fn callee<'a>(&'a self) -> Result<MaybeOwned<'a, <Self::Ast as Syntax>::Expr>, TreeError>;

    /// The call's arguments, in order.
    fn args<'a>(&'a self) -> Result<Vec<MaybeOwned<'a, <Self::Ast as Syntax>::Expr>>, TreeError>;
}

/// An error in expression position.
pub trait ErrorExpr {
    type Ast: Syntax;
}

/// Identifier reference expression.
pub trait IdentExpr {
    /// The identifier's name.
    fn name(&self) -> Result<Vec<u8>, TreeError>;
}

/// Logical expression.
pub trait LogicalExpr {
    type Ast: Syntax;

    /// The operator.
    fn op(&self) -> Result<LogicalOp, TreeError>;

    /// The left operand.
    fn left<'a>(&'a self) -> Result<MaybeOwned<'a, <Self::Ast as Syntax>::Expr>, TreeError>;

    /// The right operand.
    fn right<'a>(&'a self) -> Result<MaybeOwned<'a, <Self::Ast as Syntax>::Expr>, TreeError>;
}

/// Number literal expression. The literal is exposed as its source text;
/// decoding it to a machine number is host arithmetic outside this library.
pub trait NumLit {
    /// The literal's source text.
    fn text(&self) -> Result<Vec<u8>, TreeError>;
}

/// Sequence expression: two or more expressions separated by commas.
pub trait SeqExpr {
    type Ast: Syntax;

    /// The member expressions, in order.
    fn exprs<'a>(&'a self) -> Result<Vec<MaybeOwned<'a, <Self::Ast as Syntax>::Expr>>, TreeError>;
}

/// String literal expression.
pub trait StrLit {
    /// The literal's unescaped value.
    fn value(&self) -> Result<Vec<u8>, TreeError>;
}

/// Unary expression.
pub trait UnaryExpr {
    type Ast: Syntax;

    /// The operator.
    fn op(&self) -> Result<UnaryOp, TreeError>;

    /// The operand.
    fn arg<'a>(&'a self) -> Result<MaybeOwned<'a, <Self::Ast as Syntax>::Expr>, TreeError>;
}

/// Update expression: increment, decrement or `delete`.
pub trait UpdateExpr {
    type Ast: Syntax;

    /// The operator.
    fn op(&self) -> Result<UpdateOp, TreeError>;

    /// The operand.
    fn arg<'a>(&'a self) -> Result<MaybeOwned<'a, <Self::Ast as Syntax>::Expr>, TreeError>;
}

/// Any pattern (assignment left-hand side).
pub trait Pat {
    type Ast: Syntax;

    /// Downcasts the pattern to its concrete production.
    fn cast<'a>(&'a self) -> PatCast<'a, Self::Ast>;
}

/// Member pattern, such as `foo.bar` or `foo["bar"]`.
pub trait MemberPat {
    type Ast: Syntax;

    /// The expression whose member is named.
    fn base<'a>(&'a self) -> Result<MaybeOwned<'a, <Self::Ast as Syntax>::Expr>, TreeError>;

    /// The member key.
    fn key<'a>(&'a self) -> Result<MaybeOwned<'a, <Self::Ast as Syntax>::Expr>, TreeError>;
}

/// Identifier pattern.
pub trait IdentPat {
    /// The identifier's name.
    fn name(&self) -> Result<Vec<u8>, TreeError>;
}

} // verus!
