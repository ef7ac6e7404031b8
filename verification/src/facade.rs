//! Typed abstract-syntax views over the concrete syntax tree.
//!
//! Each grammar production gets a thin wrapper holding a syntax node, with
//! typed accessors computed on demand by structural pattern matching: no
//! accessor caches anything, and none mutates the tree. The `cast` methods
//! narrow the open unions (`Stmt`, `Expr`, `Pat`) to their precise variants,
//! resolving lexical ambiguity — one infix node shape stands for both binary
//! and logical expressions, and the prefix and postfix node shapes stand for
//! unary and update expressions — by re-inspecting the operator token among
//! the node's direct children, and unwrapping parenthesization first.
//!
//! A tree whose shape breaks the external parser's contract never panics a
//! verified function here: it yields a [`TreeError`].

use vstd::prelude::*;

use crate::ast;
use crate::ast::{BinOp, ExprCast, LogicalOp, MaybeOwned, PatCast, StmtCast, UnaryOp, UpdateOp};
use crate::cst::{
    find_infix_from, find_infix_op, find_postfix_op, find_postfix_op_from, find_prefix_op,
    find_prefix_op_from, first_node_from, lemma_first_node_height, lemma_symbols_model,
    node_height, node_model, spec_first_token, spec_trim_paren, symbols_model, token_model,
    trim_paren, NodeModel, SymbolModel, SyntaxNode, SyntaxSymbol, SyntaxToken, TreeError,
};
use crate::kinds::SyntaxKind;
use crate::unescape::{spec_unescape_string, unescape_string};

verus! {

/// The backend whose nodes are views over the concrete syntax tree.
pub struct ConcreteSyntax;

impl ast::Syntax for ConcreteSyntax {
    type Script = Script;

    type Stmt = Stmt;

    type BreakStmt = BreakStmt;

    type ErrorStmt = ErrorStmt;

    type ExprStmt = ExprStmt;

    type TraceStmt = TraceStmt;

    type VarStmt = VarStmt;

    type VarDecl = VarDecl;

    type Expr = Expr;

    type AssignExpr = AssignExpr;

    type BinExpr = BinExpr;

    type BoolLit = BoolLit;

    type CallExpr = CallExpr;

    type ErrorExpr = ErrorExpr;

    type IdentExpr = IdentExpr;

    type LogicalExpr = LogicalExpr;

    type NumLit = NumLit;

    type SeqExpr = SeqExpr;

    type StrLit = StrLit;

    type UnaryExpr = UnaryExpr;

    type UpdateExpr = UpdateExpr;

    type Pat = Pat;

    type MemberPat = MemberPat;

    type IdentPat = IdentPat;
}

// ---------------------------------------------------------------------------
// Cast totality
// ---------------------------------------------------------------------------

/// A node that the external parser's contract lets stand in expression
/// position: its kind is an expression kind, a parenthesized expression
/// holds a child node that is itself well formed, and each ambiguous shape
/// holds an operator token that resolves it.
pub open spec fn expr_cast_wf(m: NodeModel) -> bool
    decreases node_height(m),
    via expr_cast_wf_decreases
{
    &&& m.kind.spec_is_expr()
    &&& (m.kind == SyntaxKind::NodeParenExpr ==> (first_node_from(m.children, 0) matches Some(
        inner,
    ) && expr_cast_wf(inner)))
    &&& (m.kind == SyntaxKind::NodeInfixExpr ==> (find_infix_from(m.children, 0, false) matches Some(
        t,
    ) && (t.kind.spec_is_logical_op() || t.kind.spec_is_bin_op())))
    &&& (m.kind == SyntaxKind::NodePostfixExpr ==> find_postfix_op_from(m.children, 0) is Some)
    &&& (m.kind == SyntaxKind::NodePrefixExpr ==> find_prefix_op_from(m.children, 0) is Some)
}

#[via_fn]
proof fn expr_cast_wf_decreases(m: NodeModel) {
    if m.kind == SyntaxKind::NodeParenExpr {
        lemma_first_node_height(m.children, 0);
    }
}

/// Cast totality: a well-formed expression node always trims to a
/// non-paren node of an expression kind, and the ambiguous shapes always
/// carry an operator that resolves them. With the contract of
/// [`Expr::cast`], casting a well-formed node of any expression kind that
/// has a concrete production arm therefore succeeds with exactly that arm,
/// never a failure and never the error arm.
pub proof fn lemma_expr_cast_totality(m: NodeModel)
    requires
        expr_cast_wf(m),
    ensures
        spec_trim_paren(m) is Ok,
        spec_trim_paren(m) matches Ok(t) ==> {
            &&& t.kind.spec_is_expr()
            &&& t.kind != SyntaxKind::NodeParenExpr
            &&& (t.kind == SyntaxKind::NodeInfixExpr ==> (find_infix_from(t.children, 0, false)
                matches Some(op) && (op.kind.spec_is_logical_op() || op.kind.spec_is_bin_op())))
            &&& (t.kind == SyntaxKind::NodePostfixExpr ==> find_postfix_op_from(t.children, 0)
                is Some)
            &&& (t.kind == SyntaxKind::NodePrefixExpr ==> find_prefix_op_from(t.children, 0)
                is Some)
        },
    decreases node_height(m),
{
    if m.kind == SyntaxKind::NodeParenExpr {
        lemma_first_node_height(m.children, 0);
        match first_node_from(m.children, 0) {
            Some(inner) => {
                lemma_expr_cast_totality(inner);
            },
            None => {},
        }
    }
}

/// Paren-transparency of casting, composed. Wrapping the whole expression
/// in a parenthesized node never changes what it trims to — that is
/// [`crate::cst::lemma_trim_paren_transparent`] — and this lemma adds the
/// operand side: replacing any child node of an infix node, in particular
/// wrapping an operand in a parenthesized node, leaves the node an infix
/// node that trims to itself and leaves the resolving operator token
/// unchanged. With the contract of [`Expr::cast`], whose arm is a function
/// of the trimmed node's kind and of that operator token alone, the cast
/// outcome is therefore invariant under parenthesization of the whole
/// expression and of either operand.
pub proof fn lemma_infix_resolution_ignores_operand_wrapping(m: NodeModel, j: int, w: NodeModel)
    requires
        m.kind == SyntaxKind::NodeInfixExpr,
        0 <= j < m.children.len(),
        m.children[j] is Node,
    ensures
        ({
            let m2 = NodeModel { kind: m.kind, children: m.children.update(j, SymbolModel::Node(w)) };
            &&& spec_trim_paren(m) == Ok::<NodeModel, TreeError>(m)
            &&& spec_trim_paren(m2) == Ok::<NodeModel, TreeError>(m2)
            &&& find_infix_from(m2.children, 0, false) == find_infix_from(m.children, 0, false)
        }),
{
    crate::cst::lemma_find_infix_ignores_node_contents(m.children, j, w, 0, false);
}

// ---------------------------------------------------------------------------
// Child selection
// ---------------------------------------------------------------------------

/// The `k`-th child node at or after position `i`, counting nodes only.
pub open spec fn nth_node_from(cs: Seq<SymbolModel>, i: int, k: int) -> Option<NodeModel>
    decreases cs.len() - i,
{
    if i < 0 || i >= cs.len() {
        None
    } else {
        match cs[i] {
            SymbolModel::Node(n) => if k == 0 {
                Some(n)
            } else {
                nth_node_from(cs, i + 1, k - 1)
            },
            SymbolModel::Token(_) => nth_node_from(cs, i + 1, k),
        }
    }
}

/// The first child node at or after position `i` whose kind is an
/// expression kind, skipping everything else.
pub open spec fn first_expr_node_from(cs: Seq<SymbolModel>, i: int) -> Option<NodeModel>
    decreases cs.len() - i,
{
    if i < 0 || i >= cs.len() {
        None
    } else {
        match cs[i] {
            SymbolModel::Node(n) => if n.kind.spec_is_expr() {
                Some(n)
            } else {
                first_expr_node_from(cs, i + 1)
            },
            SymbolModel::Token(_) => first_expr_node_from(cs, i + 1),
        }
    }
}

/// The assigned value inside an assignment expression's children: the first
/// expression-kind child node standing after the assignment operator token.
/// `seen_op` records whether the operator was already passed.
pub open spec fn assign_value_from(cs: Seq<SymbolModel>, i: int, seen_op: bool) -> Option<
    NodeModel,
>
    decreases cs.len() - i,
{
    if i < 0 || i >= cs.len() {
        None
    } else {
        match cs[i] {
            SymbolModel::Token(t) => if t.kind.spec_is_assign_op() {
                assign_value_from(cs, i + 1, true)
            } else {
                assign_value_from(cs, i + 1, seen_op)
            },
            SymbolModel::Node(n) => if seen_op && n.kind.spec_is_expr() {
                Some(n)
            } else {
                assign_value_from(cs, i + 1, seen_op)
            },
        }
    }
}

/// All child nodes at or after position `i` whose kind is a statement kind.
pub open spec fn stmt_nodes_from(cs: Seq<SymbolModel>, i: int) -> Seq<NodeModel>
    decreases cs.len() - i,
{
    if i < 0 || i >= cs.len() {
        Seq::empty()
    } else {
        match cs[i] {
            SymbolModel::Node(n) => if n.kind.spec_is_stmt() {
                seq![n] + stmt_nodes_from(cs, i + 1)
            } else {
                stmt_nodes_from(cs, i + 1)
            },
            SymbolModel::Token(_) => stmt_nodes_from(cs, i + 1),
        }
    }
}

/// All child nodes at or after position `i` whose kind is the variable
/// declaration kind.
pub open spec fn decl_nodes_from(cs: Seq<SymbolModel>, i: int) -> Seq<NodeModel>
    decreases cs.len() - i,
{
    if i < 0 || i >= cs.len() {
        Seq::empty()
    } else {
        match cs[i] {
            SymbolModel::Node(n) => if n.kind == SyntaxKind::NodeVarDecl {
                seq![n] + decl_nodes_from(cs, i + 1)
            } else {
                decl_nodes_from(cs, i + 1)
            },
            SymbolModel::Token(_) => decl_nodes_from(cs, i + 1),
        }
    }
}

/// All child nodes at or after position `i` whose kind is an expression
/// kind.
pub open spec fn expr_nodes_from(cs: Seq<SymbolModel>, i: int) -> Seq<NodeModel>
    decreases cs.len() - i,
{
    if i < 0 || i >= cs.len() {
        Seq::empty()
    } else {
        match cs[i] {
            SymbolModel::Node(n) => if n.kind.spec_is_expr() {
                seq![n] + expr_nodes_from(cs, i + 1)
            } else {
                expr_nodes_from(cs, i + 1)
            },
            SymbolModel::Token(_) => expr_nodes_from(cs, i + 1),
        }
    }
}

/// The `k`-th child node, counting nodes only.
#[verifier::loop_isolation(false)]
fn nth_node(children: &Vec<SyntaxSymbol>, k: usize) -> (r: Option<&SyntaxNode>)
    ensures
        match nth_node_from(symbols_model(children@), 0, k as int) {
            Some(m) => r matches Some(n) && node_model(*n) == m,
            None => r is None,
        },
{
    proof {
        lemma_symbols_model(children@);
    }
    let ghost cs = symbols_model(children@);
    let mut j: usize = 0;
    let mut rem: usize = k;
    while j < children.len()
        invariant
            j <= children@.len(),
            nth_node_from(cs, 0, k as int) == nth_node_from(cs, j as int, rem as int),
        decreases children@.len() - j,
    {
        match &children[j] {
            SyntaxSymbol::Node(n) => {
                if rem == 0 {
                    return Some(n);
                }
                rem = rem - 1;
            },
            SyntaxSymbol::Token(_) => {},
        }
        j = j + 1;
    }
    None
}

/// The first child node whose kind is an expression kind.
#[verifier::loop_isolation(false)]
fn first_expr_node(children: &Vec<SyntaxSymbol>) -> (r: Option<&SyntaxNode>)
    ensures
        match first_expr_node_from(symbols_model(children@), 0) {
            Some(m) => r matches Some(n) && node_model(*n) == m,
            None => r is None,
        },
{
    proof {
        lemma_symbols_model(children@);
    }
    let ghost cs = symbols_model(children@);
    let mut j: usize = 0;
    while j < children.len()
        invariant
            j <= children@.len(),
            first_expr_node_from(cs, 0) == first_expr_node_from(cs, j as int),
        decreases children@.len() - j,
    {
        match &children[j] {
            SyntaxSymbol::Node(n) => {
                if n.kind.is_expr() {
                    return Some(n);
                }
            },
            SyntaxSymbol::Token(_) => {},
        }
        j = j + 1;
    }
    None
}

/// The first expression-kind child node standing after the assignment
/// operator token.
#[verifier::loop_isolation(false)]
fn assign_value_node(children: &Vec<SyntaxSymbol>) -> (r: Option<&SyntaxNode>)
    ensures
        match assign_value_from(symbols_model(children@), 0, false) {
            Some(m) => r matches Some(n) && node_model(*n) == m,
            None => r is None,
        },
{
    proof {
        lemma_symbols_model(children@);
    }
    let ghost cs = symbols_model(children@);
    let mut seen_op: bool = false;
    let mut j: usize = 0;
    while j < children.len()
        invariant
            j <= children@.len(),
            assign_value_from(cs, 0, false) == assign_value_from(cs, j as int, seen_op),
        decreases children@.len() - j,
    {
        match &children[j] {
            SyntaxSymbol::Token(t) => {
                if t.kind.is_assign_op() {
                    seen_op = true;
                }
            },
            SyntaxSymbol::Node(n) => {
                if seen_op && n.kind.is_expr() {
                    return Some(n);
                }
            },
        }
        j = j + 1;
    }
    None
}

/// The text of a token, copied out.
fn token_text(t: &SyntaxToken) -> (r: Vec<u8>)
    ensures
        r@ == token_model(*t).text,
{
    t.deep_clone().text
}

/// Wraps every expression-kind child node as an expression view, in order.
#[verifier::loop_isolation(false)]
fn collect_exprs<'a>(children: &Vec<SyntaxSymbol>) -> (r: Vec<MaybeOwned<'a, Expr>>)
    ensures
        r@.len() == expr_nodes_from(symbols_model(children@), 0).len(),
        forall|i: int|
            0 <= i < r@.len() ==> r@[i].value().model() == expr_nodes_from(
                symbols_model(children@),
                0,
            )[i],
{
    proof {
        lemma_symbols_model(children@);
    }
    let ghost cs = symbols_model(children@);
    let ghost full = expr_nodes_from(cs, 0);
    let mut out: Vec<MaybeOwned<'a, Expr>> = Vec::new();
    let ghost mut acc: Seq<NodeModel> = Seq::empty();
    let mut j: usize = 0;
    while j < children.len()
        invariant
            j <= children@.len(),
            acc.len() == out@.len(),
            acc + expr_nodes_from(cs, j as int) == full,
            forall|k: int| 0 <= k < out@.len() ==> out@[k].value().model() == acc[k],
        decreases children@.len() - j,
    {
        match &children[j] {
            SyntaxSymbol::Node(n) => {
                if n.kind.is_expr() {
                    let ghost nm = node_model(*n);
                    proof {
                        assert(acc.push(nm) + expr_nodes_from(cs, j as int + 1) =~= acc + (seq![nm]
                            + expr_nodes_from(cs, j as int + 1)));
                        acc = acc.push(nm);
                    }
                    out.push(MaybeOwned::Owned(Expr { syntax: n.deep_clone() }));
                }
            },
            SyntaxSymbol::Token(_) => {},
        }
        j = j + 1;
    }
    proof {
        assert(acc + expr_nodes_from(cs, j as int) =~= acc);
    }
    out
}

// ---------------------------------------------------------------------------
// Script
// ---------------------------------------------------------------------------

/// An AST script root backed by a concrete syntax node.
#[derive(Debug)]
pub struct Script {
    pub syntax: SyntaxNode,
}

impl Script {
    /// The mirror of the backing node.
    pub open spec fn model(self) -> NodeModel {
        node_model(self.syntax)
    }

    /// Wraps a node as a script root when its kind is the script kind.
    pub fn from_syntax(syntax: SyntaxNode) -> (r: Option<Script>)
        ensures
            (node_model(syntax).kind == SyntaxKind::NodeScript) == (r is Some),
            r matches Some(s) ==> s.model() == node_model(syntax),
    {
        if syntax.kind == SyntaxKind::NodeScript {
            Some(Script { syntax })
        } else {
            None
        }
    }

    /// The statements of the script: every statement-kind child node, in
    /// order.
    #[verifier::loop_isolation(false)]
    pub fn stmts<'a>(&'a self) -> (r: Vec<MaybeOwned<'a, Stmt>>)
        ensures
            r@.len() == stmt_nodes_from(self.model().children, 0).len(),
            forall|i: int|
                0 <= i < r@.len() ==> r@[i].value().model() == stmt_nodes_from(
                    self.model().children,
                    0,
                )[i],
    {
        proof {
            lemma_symbols_model(self.syntax.children@);
        }
        let ghost cs = self.model().children;
        let ghost full = stmt_nodes_from(cs, 0);
        let mut out: Vec<MaybeOwned<'a, Stmt>> = Vec::new();
        let ghost mut acc: Seq<NodeModel> = Seq::empty();
        let mut j: usize = 0;
        while j < self.syntax.children.len()
            invariant
                j <= self.syntax.children@.len(),
                acc.len() == out@.len(),
                acc + stmt_nodes_from(cs, j as int) == full,
                forall|k: int| 0 <= k < out@.len() ==> out@[k].value().model() == acc[k],
            decreases self.syntax.children@.len() - j,
        {
            match &self.syntax.children[j] {
                SyntaxSymbol::Node(n) => {
                    if n.kind.is_stmt() {
                        let ghost nm = node_model(*n);
                        proof {
                            assert(acc.push(nm) + stmt_nodes_from(cs, j as int + 1) =~= acc + (
                            seq![nm] + stmt_nodes_from(cs, j as int + 1)));
                            acc = acc.push(nm);
                        }
                        out.push(MaybeOwned::Owned(Stmt { syntax: n.deep_clone() }));
                    }
                },
                SyntaxSymbol::Token(_) => {},
            }
            j = j + 1;
        }
        proof {
            assert(acc + stmt_nodes_from(cs, j as int) =~= acc);
        }
        out
    }
}

impl ast::Script for Script {
    type Ast = ConcreteSyntax;

    fn stmts<'a>(&'a self) -> Vec<MaybeOwned<'a, Stmt>> {
        self.stmts()
    }
}

// ---------------------------------------------------------------------------
// Statements
// ---------------------------------------------------------------------------

/// A statement backed by a concrete syntax node.
#[derive(Debug)]
pub struct Stmt {
    pub syntax: SyntaxNode,
}

impl Stmt {
    /// The mirror of the backing node.
    pub open spec fn model(self) -> NodeModel {
        node_model(self.syntax)
    }

    /// Wraps a node as a statement when its kind is a statement kind.
    pub fn from_syntax(syntax: SyntaxNode) -> (r: Option<Stmt>)
        ensures
            node_model(syntax).kind.spec_is_stmt() == (r is Some),
            r matches Some(s) ==> s.model() == node_model(syntax),
    {
        if syntax.kind.is_stmt() {
            Some(Stmt { syntax })
        } else {
            None
        }
    }

    /// Downcasts the statement to its concrete production: an expression
    /// statement, a variable statement, or the error statement for any
    /// other kind.
    pub fn cast<'a>(&'a self) -> (r: StmtCast<'a, ConcreteSyntax>)
        ensures
            ({
                let m0 = self.model();
                if m0.kind == SyntaxKind::NodeExprStmt {
                    r matches StmtCast::Expr(w) && w.value().model() == m0
                } else if m0.kind == SyntaxKind::NodeVarStmt {
                    r matches StmtCast::VarStmt(w) && w.value().model() == m0
                } else {
                    r matches StmtCast::Error(w) && w.value().model() == m0
                }
            }),
    {
        match self.syntax.kind {
            SyntaxKind::NodeExprStmt => StmtCast::Expr(
                MaybeOwned::Owned(ExprStmt { syntax: self.syntax.deep_clone() }),
            ),
            SyntaxKind::NodeVarStmt => StmtCast::VarStmt(
                MaybeOwned::Owned(VarStmt { syntax: self.syntax.deep_clone() }),
            ),
            _ => StmtCast::Error(MaybeOwned::Owned(ErrorStmt { syntax: self.syntax.deep_clone() })),
        }
    }
}

impl ast::Stmt for Stmt {
    type Ast = ConcreteSyntax;

    fn cast<'a>(&'a self) -> StmtCast<'a, ConcreteSyntax> {
        self.cast()
    }
}

/// A break statement backed by a concrete syntax node.
#[derive(Debug)]
pub struct BreakStmt {
    pub syntax: SyntaxNode,
}

impl BreakStmt {
    /// The mirror of the backing node.
    pub open spec fn model(self) -> NodeModel {
        node_model(self.syntax)
    }
}

impl ast::BreakStmt for BreakStmt {

}

/// An invalid statement backed by a concrete syntax node.
#[derive(Debug)]
pub struct ErrorStmt {
    pub syntax: SyntaxNode,
}

impl ErrorStmt {
    /// The mirror of the backing node.
    pub open spec fn model(self) -> NodeModel {
        node_model(self.syntax)
    }
}

impl ast::ErrorStmt for ErrorStmt {

}

/// An expression statement backed by a concrete syntax node.
#[derive(Debug)]
pub struct ExprStmt {
    pub syntax: SyntaxNode,
}

impl ExprStmt {
    /// The mirror of the backing node.
    pub open spec fn model(self) -> NodeModel {
        node_model(self.syntax)
    }

    /// The statement's expression: the first expression-kind child node. A
    /// statement without one is a malformed tree.
    pub fn expr<'a>(&'a self) -> (r: Result<MaybeOwned<'a, Expr>, TreeError>)
        ensures
            match first_expr_node_from(self.model().children, 0) {
                Some(m) => r matches Ok(w) && w.value().model() == m,
                None => r == Err::<MaybeOwned<'a, Expr>, TreeError>(TreeError::MissingChild),
            },
    {
        match first_expr_node(&self.syntax.children) {
            Some(n) => Ok(MaybeOwned::Owned(Expr { syntax: n.deep_clone() })),
            None => Err(TreeError::MissingChild),
        }
    }
}

impl ast::ExprStmt for ExprStmt {
    type Ast = ConcreteSyntax;

    fn expr<'a>(&'a self) -> Result<MaybeOwned<'a, Expr>, TreeError> {
        self.expr()
    }
}

/// An abstract trace statement backed by a concrete syntax node.
#[derive(Debug)]
pub struct TraceStmt {
    pub syntax: SyntaxNode,
}

impl TraceStmt {
    /// The mirror of the backing node.
    pub open spec fn model(self) -> NodeModel {
        node_model(self.syntax)
    }

    /// The traced value: the first child node, which must be an expression.
    pub fn value<'a>(&'a self) -> (r: Result<MaybeOwned<'a, Expr>, TreeError>)
        ensures
            match nth_node_from(self.model().children, 0, 0) {
                Some(m) => if m.kind.spec_is_expr() {
                    r matches Ok(w) && w.value().model() == m
                } else {
                    r == Err::<MaybeOwned<'a, Expr>, TreeError>(TreeError::NotAnExpr)
                },
                None => r == Err::<MaybeOwned<'a, Expr>, TreeError>(TreeError::MissingChild),
            },
    {
        match nth_node(&self.syntax.children, 0) {
            Some(n) => {
                if n.kind.is_expr() {
                    Ok(MaybeOwned::Owned(Expr { syntax: n.deep_clone() }))
                } else {
                    Err(TreeError::NotAnExpr)
                }
            },
            None => Err(TreeError::MissingChild),
        }
    }
}

impl ast::TraceStmt for TraceStmt {
    type Ast = ConcreteSyntax;

    fn value<'a>(&'a self) -> Result<MaybeOwned<'a, Expr>, TreeError> {
        self.value()
    }
}

/// A variable statement backed by a concrete syntax node.
#[derive(Debug)]
pub struct VarStmt {
    pub syntax: SyntaxNode,
}

impl VarStmt {
    /// The mirror of the backing node.
    pub open spec fn model(self) -> NodeModel {
        node_model(self.syntax)
    }

    /// The declarations of the statement: every variable-declaration child
    /// node, in order.
    #[verifier::loop_isolation(false)]
    pub fn decls<'a>(&'a self) -> (r: Vec<MaybeOwned<'a, VarDecl>>)
        ensures
            r@.len() == decl_nodes_from(self.model().children, 0).len(),
            forall|i: int|
                0 <= i < r@.len() ==> r@[i].value().model() == decl_nodes_from(
                    self.model().children,
                    0,
                )[i],
    {
        proof {
            lemma_symbols_model(self.syntax.children@);
        }
        let ghost cs = self.model().children;
        let ghost full = decl_nodes_from(cs, 0);
        let mut out: Vec<MaybeOwned<'a, VarDecl>> = Vec::new();
        let ghost mut acc: Seq<NodeModel> = Seq::empty();
        let mut j: usize = 0;
        while j < self.syntax.children.len()
            invariant
                j <= self.syntax.children@.len(),
                acc.len() == out@.len(),
                acc + decl_nodes_from(cs, j as int) == full,
                forall|k: int| 0 <= k < out@.len() ==> out@[k].value().model() == acc[k],
            decreases self.syntax.children@.len() - j,
        {
            match &self.syntax.children[j] {
                SyntaxSymbol::Node(n) => {
                    if n.kind == SyntaxKind::NodeVarDecl {
                        let ghost nm = node_model(*n);
                        proof {
                            assert(acc.push(nm) + decl_nodes_from(cs, j as int + 1) =~= acc + (
                            seq![nm] + decl_nodes_from(cs, j as int + 1)));
                            acc = acc.push(nm);
                        }
                        out.push(MaybeOwned::Owned(VarDecl { syntax: n.deep_clone() }));
                    }
                },
                SyntaxSymbol::Token(_) => {},
            }
            j = j + 1;
        }
        proof {
            assert(acc + decl_nodes_from(cs, j as int) =~= acc);
        }
        out
    }
}

impl ast::VarStmt for VarStmt {
    type Ast = ConcreteSyntax;

    fn decls<'a>(&'a self) -> Vec<MaybeOwned<'a, VarDecl>> {
        self.decls()
    }
}

/// A variable declaration backed by a concrete syntax node.
#[derive(Debug)]
pub struct VarDecl {
    pub syntax: SyntaxNode,
}

impl VarDecl {
    /// The mirror of the backing node.
    pub open spec fn model(self) -> NodeModel {
        node_model(self.syntax)
    }

    /// Wraps a node as a variable declaration when its kind matches.
    pub fn from_syntax(syntax: SyntaxNode) -> (r: Option<VarDecl>)
        ensures
            (node_model(syntax).kind == SyntaxKind::NodeVarDecl) == (r is Some),
            r matches Some(d) ==> d.model() == node_model(syntax),
    {
        if syntax.kind == SyntaxKind::NodeVarDecl {
            Some(VarDecl { syntax })
        } else {
            None
        }
    }

    /// The declared pattern: the first child node, which must be an
    /// identifier node.
    pub fn pat<'a>(&'a self) -> (r: Result<MaybeOwned<'a, IdentPat>, TreeError>)
        ensures
            match nth_node_from(self.model().children, 0, 0) {
                Some(m) => if m.kind == SyntaxKind::NodeIdent {
                    r matches Ok(w) && w.value().model() == m
                } else {
                    r == Err::<MaybeOwned<'a, IdentPat>, TreeError>(TreeError::UnexpectedKind)
                },
                None => r == Err::<MaybeOwned<'a, IdentPat>, TreeError>(TreeError::MissingChild),
            },
    {
        match nth_node(&self.syntax.children, 0) {
            Some(n) => {
                if n.kind == SyntaxKind::NodeIdent {
                    Ok(MaybeOwned::Owned(IdentPat { syntax: n.deep_clone() }))
                } else {
                    Err(TreeError::UnexpectedKind)
                }
            },
            None => Err(TreeError::MissingChild),
        }
    }

    /// The initializer: the second child node if there is one, which must
    /// then be an expression.
    pub fn init<'a>(&'a self) -> (r: Result<Option<MaybeOwned<'a, Expr>>, TreeError>)
        ensures
            match nth_node_from(self.model().children, 0, 1) {
                Some(m) => if m.kind.spec_is_expr() {
                    r matches Ok(o) && o matches Some(w) && w.value().model() == m
                } else {
                    r == Err::<Option<MaybeOwned<'a, Expr>>, TreeError>(TreeError::NotAnExpr)
                },
                None => r matches Ok(o) && o is None,
            },
    {
        match nth_node(&self.syntax.children, 1) {
            Some(n) => {
                if n.kind.is_expr() {
                    Ok(Some(MaybeOwned::Owned(Expr { syntax: n.deep_clone() })))
                } else {
                    Err(TreeError::NotAnExpr)
                }
            },
            None => Ok(None),
        }
    }
}

impl ast::VarDecl for VarDecl {
    type Ast = ConcreteSyntax;
}

// ---------------------------------------------------------------------------
// Expressions
// ---------------------------------------------------------------------------

/// An expression backed by a concrete syntax node.
#[derive(Debug)]
pub struct Expr {
    pub syntax: SyntaxNode,
}

impl Expr {
    /// The mirror of the backing node.
    pub open spec fn model(self) -> NodeModel {
        node_model(self.syntax)
    }

    /// Wraps a node as an expression when its kind is an expression kind.
    pub fn from_syntax(syntax: SyntaxNode) -> (r: Option<Expr>)
        ensures
            node_model(syntax).kind.spec_is_expr() == (r is Some),
            r matches Some(e) ==> e.model() == node_model(syntax),
    {
        if syntax.kind.is_expr() {
            Some(Expr { syntax })
        } else {
            None
        }
    }

    /// Downcasts the expression to its concrete production. Parenthesized
    /// expressions are unwrapped first; the ambiguous infix, prefix and
    /// postfix shapes are resolved by the operator token among the direct
    /// children of the unwrapped node; every unrecognized expression kind
    /// yields the error expression; and a tree whose shape breaks the
    /// parser's contract yields the error it was refused for.
    pub fn cast<'a>(&'a self) -> (r: Result<ExprCast<'a, ConcreteSyntax>, TreeError>)
        ensures
            ({
                let m0 = self.model();
                match spec_trim_paren(m0) {
                    Err(e) => r == Err::<ExprCast<'a, ConcreteSyntax>, TreeError>(e),
                    Ok(m) => {
                        if m.kind == SyntaxKind::NodeAssignExpr {
                            r matches Ok(c) && c matches ExprCast::Assign(w) && w.value().model()
                                == m0
                        } else if m.kind == SyntaxKind::NodeBoolLit {
                            r matches Ok(c) && c matches ExprCast::BoolLit(w) && w.value().model()
                                == m0
                        } else if m.kind == SyntaxKind::NodeCallExpr {
                            r matches Ok(c) && c matches ExprCast::Call(w) && w.value().model()
                                == m0
                        } else if m.kind == SyntaxKind::NodeIdent {
                            r matches Ok(c) && c matches ExprCast::Ident(w) && w.value().model()
                                == m0
                        } else if m.kind == SyntaxKind::NodeInfixExpr {
                            match find_infix_from(m.children, 0, false) {
                                Some(t) => if t.kind.spec_is_logical_op() {
                                    r matches Ok(c) && c matches ExprCast::Logical(w)
                                        && w.value().model() == m0
                                } else if t.kind.spec_is_bin_op() {
                                    r matches Ok(c) && c matches ExprCast::Bin(w)
                                        && w.value().model() == m0
                                } else {
                                    r == Err::<ExprCast<'a, ConcreteSyntax>, TreeError>(
                                        TreeError::UnknownOperator,
                                    )
                                },
                                None => r == Err::<ExprCast<'a, ConcreteSyntax>, TreeError>(
                                    TreeError::MissingOperator,
                                ),
                            }
                        } else if m.kind == SyntaxKind::NodeNumLit {
                            r matches Ok(c) && c matches ExprCast::NumLit(w) && w.value().model()
                                == m0
                        } else if m.kind == SyntaxKind::NodePostfixExpr {
                            match find_postfix_op_from(m.children, 0) {
                                Some(t) => r matches Ok(c) && c matches ExprCast::Update(w)
                                    && w.value().model() == m0,
                                None => r == Err::<ExprCast<'a, ConcreteSyntax>, TreeError>(
                                    TreeError::MissingOperator,
                                ),
                            }
                        } else if m.kind == SyntaxKind::NodePrefixExpr {
                            match find_prefix_op_from(m.children, 0) {
                                Some(t) => if t.kind.spec_is_unary_op() {
                                    r matches Ok(c) && c matches ExprCast::Unary(w)
                                        && w.value().model() == m0
                                } else {
                                    r matches Ok(c) && c matches ExprCast::Update(w)
                                        && w.value().model() == m0
                                },
                                None => r == Err::<ExprCast<'a, ConcreteSyntax>, TreeError>(
                                    TreeError::MissingOperator,
                                ),
                            }
                        } else if m.kind == SyntaxKind::NodeSeqExpr {
                            r matches Ok(c) && c matches ExprCast::Sequence(w) && w.value().model()
                                == m0
                        } else if m.kind == SyntaxKind::NodeStrLit {
                            r matches Ok(c) && c matches ExprCast::StrLit(w) && w.value().model()
                                == m0
                        } else {
                            r matches Ok(c) && c matches ExprCast::Error(w) && w.value().model()
                                == m0
                        }
                    },
                }
            }),
    {
        let inner = match trim_paren(&self.syntax) {
            Ok(n) => n,
            Err(e) => {
                return Err(e);
            },
        };
        match inner.kind {
            SyntaxKind::NodeAssignExpr => Ok(
                ExprCast::Assign(MaybeOwned::Owned(AssignExpr { syntax: self.syntax.deep_clone() })),
            ),
            SyntaxKind::NodeBoolLit => Ok(
                ExprCast::BoolLit(MaybeOwned::Owned(BoolLit { syntax: self.syntax.deep_clone() })),
            ),
            SyntaxKind::NodeCallExpr => Ok(
                ExprCast::Call(MaybeOwned::Owned(CallExpr { syntax: self.syntax.deep_clone() })),
            ),
            SyntaxKind::NodeIdent => Ok(
                ExprCast::Ident(MaybeOwned::Owned(IdentExpr { syntax: self.syntax.deep_clone() })),
            ),
            SyntaxKind::NodeInfixExpr => {
                match find_infix_op(&inner.children) {
                    Some(t) => {
                        if t.kind.is_logical_op() {
                            Ok(
                                ExprCast::Logical(
                                    MaybeOwned::Owned(
                                        LogicalExpr { syntax: self.syntax.deep_clone() },
                                    ),
                                ),
                            )
                        } else if t.kind.is_bin_op() {
                            Ok(
                                ExprCast::Bin(
                                    MaybeOwned::Owned(BinExpr { syntax: self.syntax.deep_clone() }),
                                ),
                            )
                        } else {
                            Err(TreeError::UnknownOperator)
                        }
                    },
                    None => Err(TreeError::MissingOperator),
                }
            },
            SyntaxKind::NodeNumLit => Ok(
                ExprCast::NumLit(MaybeOwned::Owned(NumLit { syntax: self.syntax.deep_clone() })),
            ),
            SyntaxKind::NodePostfixExpr => {
                match find_postfix_op(&inner.children) {
                    Some(_) => Ok(
                        ExprCast::Update(
                            MaybeOwned::Owned(UpdateExpr { syntax: self.syntax.deep_clone() }),
                        ),
                    ),
                    None => Err(TreeError::MissingOperator),
                }
            },
            SyntaxKind::NodePrefixExpr => {
                match find_prefix_op(&inner.children) {
                    Some(t) => {
                        if t.kind.is_unary_op() {
                            Ok(
                                ExprCast::Unary(
                                    MaybeOwned::Owned(
                                        UnaryExpr { syntax: self.syntax.deep_clone() },
                                    ),
                                ),
                            )
                        } else {
                            Ok(
                                ExprCast::Update(
                                    MaybeOwned::Owned(
                                        UpdateExpr { syntax: self.syntax.deep_clone() },
                                    ),
                                ),
                            )
                        }
                    },
                    None => Err(TreeError::MissingOperator),
                }
            },
            SyntaxKind::NodeSeqExpr => Ok(
                ExprCast::Sequence(MaybeOwned::Owned(SeqExpr { syntax: self.syntax.deep_clone() })),
            ),
            SyntaxKind::NodeStrLit => Ok(
                ExprCast::StrLit(MaybeOwned::Owned(StrLit { syntax: self.syntax.deep_clone() })),
            ),
            _ => Ok(
                ExprCast::Error(MaybeOwned::Owned(ErrorExpr { syntax: self.syntax.deep_clone() })),
            ),
        }
    }
}

impl ast::Expr for Expr {
    type Ast = ConcreteSyntax;

    fn cast<'a>(&'a self) -> Result<ExprCast<'a, ConcreteSyntax>, TreeError> {
        self.cast()
    }
}

// ---------------------------------------------------------------------------
// Concrete expressions
// ---------------------------------------------------------------------------

/// The binary operator denoted by an operator token kind.
pub open spec fn spec_bin_op_of(k: SyntaxKind) -> Result<BinOp, TreeError> {
    match k {
        SyntaxKind::TokenPlus => Ok(BinOp::Add),
        SyntaxKind::TokenAmp => Ok(BinOp::BitAnd),
        SyntaxKind::TokenPipe => Ok(BinOp::BitOr),
        SyntaxKind::TokenCaret => Ok(BinOp::BitXor),
        SyntaxKind::TokenSlash => Ok(BinOp::Divide),
        SyntaxKind::TokenEqEq => Ok(BinOp::Equals),
        SyntaxKind::TokenLt => Ok(BinOp::Less),
        SyntaxKind::TokenLtLt => Ok(BinOp::LeftShift),
        SyntaxKind::TokenStar => Ok(BinOp::Multiply),
        SyntaxKind::TokenMinus => Ok(BinOp::Subtract),
        SyntaxKind::TokenEqEqEq => Ok(BinOp::StrictEquals),
        _ => Err(TreeError::UnknownOperator),
    }
}

/// The logical operator denoted by an operator token kind.
pub open spec fn spec_logical_op_of(k: SyntaxKind) -> Result<LogicalOp, TreeError> {
    match k {
        SyntaxKind::TokenAmpAmp => Ok(LogicalOp::And),
        SyntaxKind::TokenPipePipe => Ok(LogicalOp::Or),
        _ => Err(TreeError::UnknownOperator),
    }
}

/// The unary operator denoted by an operator token kind.
pub open spec fn spec_unary_op_of(k: SyntaxKind) -> Result<UnaryOp, TreeError> {
    match k {
        SyntaxKind::TokenTilde => Ok(UnaryOp::BitNot),
        SyntaxKind::TokenMinus => Ok(UnaryOp::Neg),
        SyntaxKind::TokenExcl => Ok(UnaryOp::Not),
        SyntaxKind::TokenPlus => Ok(UnaryOp::ToNum),
        SyntaxKind::TokenTypeof => Ok(UnaryOp::TypeOf),
        SyntaxKind::TokenVoid => Ok(UnaryOp::Void),
        _ => Err(TreeError::UnknownOperator),
    }
}

/// The prefix update operator denoted by an operator token kind.
pub open spec fn spec_prefix_update_op_of(k: SyntaxKind) -> Result<UpdateOp, TreeError> {
    match k {
        SyntaxKind::TokenDelete => Ok(UpdateOp::Delete),
        SyntaxKind::TokenMinusMinus => Ok(UpdateOp::PreDec),
        SyntaxKind::TokenPlusPlus => Ok(UpdateOp::PreInc),
        _ => Err(TreeError::UnknownOperator),
    }
}

/// The postfix update operator denoted by an operator token kind.
pub open spec fn spec_postfix_update_op_of(k: SyntaxKind) -> Result<UpdateOp, TreeError> {
    match k {
        SyntaxKind::TokenMinusMinus => Ok(UpdateOp::PostDec),
        SyntaxKind::TokenPlusPlus => Ok(UpdateOp::PostInc),
        _ => Err(TreeError::UnknownOperator),
    }
}

/// An assignment expression backed by a concrete syntax node.
#[derive(Debug)]
pub struct AssignExpr {
    pub syntax: SyntaxNode,
}

impl AssignExpr {
    /// The mirror of the backing node.
    pub open spec fn model(self) -> NodeModel {
        node_model(self.syntax)
    }

    /// The assigned pattern: the first child node of the unwrapped node.
    pub fn target<'a>(&'a self) -> (r: Result<MaybeOwned<'a, Pat>, TreeError>)
        ensures
            match spec_trim_paren(self.model()) {
                Err(e) => r == Err::<MaybeOwned<'a, Pat>, TreeError>(e),
                Ok(m) => match nth_node_from(m.children, 0, 0) {
                    Some(a) => r matches Ok(w) && w.value().model() == a,
                    None => r == Err::<MaybeOwned<'a, Pat>, TreeError>(TreeError::MissingChild),
                },
            },
    {
        let inner = match trim_paren(&self.syntax) {
            Ok(n) => n,
            Err(e) => {
                return Err(e);
            },
        };
        match nth_node(&inner.children, 0) {
            Some(n) => Ok(MaybeOwned::Owned(Pat { syntax: n.deep_clone() })),
            None => Err(TreeError::MissingChild),
        }
    }

    /// The assigned value: the first expression-kind child node of the
    /// unwrapped node standing after the assignment operator token.
    pub fn value<'a>(&'a self) -> (r: Result<MaybeOwned<'a, Expr>, TreeError>)
        ensures
            match spec_trim_paren(self.model()) {
                Err(e) => r == Err::<MaybeOwned<'a, Expr>, TreeError>(e),
                Ok(m) => match assign_value_from(m.children, 0, false) {
                    Some(a) => r matches Ok(w) && w.value().model() == a,
                    None => r == Err::<MaybeOwned<'a, Expr>, TreeError>(TreeError::MissingChild),
                },
            },
    {
        let inner = match trim_paren(&self.syntax) {
            Ok(n) => n,
            Err(e) => {
                return Err(e);
            },
        };
        match assign_value_node(&inner.children) {
            Some(n) => Ok(MaybeOwned::Owned(Expr { syntax: n.deep_clone() })),
            None => Err(TreeError::MissingChild),
        }
    }
}

impl ast::AssignExpr for AssignExpr {
    type Ast = ConcreteSyntax;

    fn target<'a>(&'a self) -> Result<MaybeOwned<'a, Pat>, TreeError> {
        self.target()
    }

    fn value<'a>(&'a self) -> Result<MaybeOwned<'a, Expr>, TreeError> {
        self.value()
    }
}

/// A binary expression backed by a concrete syntax node.
#[derive(Debug)]
pub struct BinExpr {
    pub syntax: SyntaxNode,
}

impl BinExpr {
    /// The mirror of the backing node.
    pub open spec fn model(self) -> NodeModel {
        node_model(self.syntax)
    }

    /// The operator, read from the top-level infix operator token of the
    /// unwrapped node.
    pub fn op(&self) -> (r: Result<BinOp, TreeError>)
        ensures
            match spec_trim_paren(self.model()) {
                Err(e) => r == Err::<BinOp, TreeError>(e),
                Ok(m) => match find_infix_from(m.children, 0, false) {
                    Some(t) => r == spec_bin_op_of(t.kind),
                    None => r == Err::<BinOp, TreeError>(TreeError::MissingOperator),
                },
            },
    {
        let inner = match trim_paren(&self.syntax) {
            Ok(n) => n,
            Err(e) => {
                return Err(e);
            },
        };
        match find_infix_op(&inner.children) {
            Some(t) => match t.kind {
                SyntaxKind::TokenPlus => Ok(BinOp::Add),
                SyntaxKind::TokenAmp => Ok(BinOp::BitAnd),
                SyntaxKind::TokenPipe => Ok(BinOp::BitOr),
                SyntaxKind::TokenCaret => Ok(BinOp::BitXor),
                SyntaxKind::TokenSlash => Ok(BinOp::Divide),
                SyntaxKind::TokenEqEq => Ok(BinOp::Equals),
                SyntaxKind::TokenLt => Ok(BinOp::Less),
                SyntaxKind::TokenLtLt => Ok(BinOp::LeftShift),
                SyntaxKind::TokenStar => Ok(BinOp::Multiply),
                SyntaxKind::TokenMinus => Ok(BinOp::Subtract),
                SyntaxKind::TokenEqEqEq => Ok(BinOp::StrictEquals),
                _ => Err(TreeError::UnknownOperator),
            },
            None => Err(TreeError::MissingOperator),
        }
    }

    /// The left operand: the first child node of the unwrapped node, which
    /// must be an expression.
    pub fn left<'a>(&'a self) -> (r: Result<MaybeOwned<'a, Expr>, TreeError>)
        ensures
            match spec_trim_paren(self.model()) {
                Err(e) => r == Err::<MaybeOwned<'a, Expr>, TreeError>(e),
                Ok(m) => match nth_node_from(m.children, 0, 0) {
                    Some(a) => if a.kind.spec_is_expr() {
                        r matches Ok(w) && w.value().model() == a
                    } else {
                        r == Err::<MaybeOwned<'a, Expr>, TreeError>(TreeError::NotAnExpr)
                    },
                    None => r == Err::<MaybeOwned<'a, Expr>, TreeError>(TreeError::MissingChild),
                },
            },
    {
        let inner = match trim_paren(&self.syntax) {
            Ok(n) => n,
            Err(e) => {
                return Err(e);
            },
        };
        match nth_node(&inner.children, 0) {
            Some(n) => {
                if n.kind.is_expr() {
                    Ok(MaybeOwned::Owned(Expr { syntax: n.deep_clone() }))
                } else {
                    Err(TreeError::NotAnExpr)
                }
            },
            None => Err(TreeError::MissingChild),
        }
    }

    /// The right operand: the second child node of the unwrapped node,
    /// which must be an expression.
    pub fn right<'a>(&'a self) -> (r: Result<MaybeOwned<'a, Expr>, TreeError>)
        ensures
            match spec_trim_paren(self.model()) {
                Err(e) => r == Err::<MaybeOwned<'a, Expr>, TreeError>(e),
                Ok(m) => match nth_node_from(m.children, 0, 1) {
                    Some(a) => if a.kind.spec_is_expr() {
                        r matches Ok(w) && w.value().model() == a
                    } else {
                        r == Err::<MaybeOwned<'a, Expr>, TreeError>(TreeError::NotAnExpr)
                    },
                    None => r == Err::<MaybeOwned<'a, Expr>, TreeError>(TreeError::MissingChild),
                },
            },
    {
        let inner = match trim_paren(&self.syntax) {
            Ok(n) => n,
            Err(e) => {
                return Err(e);
            },
        };
        match nth_node(&inner.children, 1) {
            Some(n) => {
                if n.kind.is_expr() {
                    Ok(MaybeOwned::Owned(Expr { syntax: n.deep_clone() }))
                } else {
                    Err(TreeError::NotAnExpr)
                }
            },
            None => Err(TreeError::MissingChild),
        }
    }
}

impl ast::BinExpr for BinExpr {
    type Ast = ConcreteSyntax;

    fn op(&self) -> Result<BinOp, TreeError> {
        self.op()
    }

    fn left<'a>(&'a self) -> Result<MaybeOwned<'a, Expr>, TreeError> {
        self.left()
    }

    fn right<'a>(&'a self) -> Result<MaybeOwned<'a, Expr>, TreeError> {
        self.right()
    }
}

/// A boolean literal backed by a concrete syntax node.
#[derive(Debug)]
pub struct BoolLit {
    pub syntax: SyntaxNode,
}

impl BoolLit {
    /// The mirror of the backing node.
    pub open spec fn model(self) -> NodeModel {
        node_model(self.syntax)
    }

    /// Wraps a node as a boolean literal when its kind matches.
    pub fn from_syntax(syntax: SyntaxNode) -> (r: Option<BoolLit>)
        ensures
            (node_model(syntax).kind == SyntaxKind::NodeBoolLit) == (r is Some),
            r matches Some(b) ==> b.model() == node_model(syntax),
    {
        if syntax.kind == SyntaxKind::NodeBoolLit {
            Some(BoolLit { syntax })
        } else {
            None
        }
    }

    /// The literal's value, read from the first token under the unwrapped
    /// node, which must be the `true` or the `false` keyword.
    pub fn value(&self) -> (r: Result<bool, TreeError>)
        ensures
            match spec_trim_paren(self.model()) {
                Err(e) => r == Err::<bool, TreeError>(e),
                Ok(m) => match spec_first_token(m) {
                    Some(t) => if t.kind == SyntaxKind::TokenTrue {
                        r == Ok::<bool, TreeError>(true)
                    } else if t.kind == SyntaxKind::TokenFalse {
                        r == Ok::<bool, TreeError>(false)
                    } else {
                        r == Err::<bool, TreeError>(TreeError::UnexpectedToken)
                    },
                    None => r == Err::<bool, TreeError>(TreeError::MissingToken),
                },
            },
    {
        let inner = match trim_paren(&self.syntax) {
            Ok(n) => n,
            Err(e) => {
                return Err(e);
            },
        };
        match inner.first_token() {
            Some(t) => match t.kind {
                SyntaxKind::TokenTrue => Ok(true),
                SyntaxKind::TokenFalse => Ok(false),
                _ => Err(TreeError::UnexpectedToken),
            },
            None => Err(TreeError::MissingToken),
        }
    }
}

impl ast::BoolLit for BoolLit {
    fn value(&self) -> Result<bool, TreeError> {
        self.value()
    }
}

/// A call expression backed by a concrete syntax node.
#[derive(Debug)]
pub struct CallExpr {
    pub syntax: SyntaxNode,
}

impl CallExpr {
    /// The mirror of the backing node.
    pub open spec fn model(self) -> NodeModel {
        node_model(self.syntax)
    }

    /// The called expression: the first child node of the unwrapped node,
    /// which must be an expression.
    pub fn callee<'a>(&'a self) -> (r: Result<MaybeOwned<'a, Expr>, TreeError>)
        ensures
            match spec_trim_paren(self.model()) {
                Err(e) => r == Err::<MaybeOwned<'a, Expr>, TreeError>(e),
                Ok(m) => match nth_node_from(m.children, 0, 0) {
                    Some(a) => if a.kind.spec_is_expr() {
                        r matches Ok(w) && w.value().model() == a
                    } else {
                        r == Err::<MaybeOwned<'a, Expr>, TreeError>(TreeError::NotAnExpr)
                    },
                    None => r == Err::<MaybeOwned<'a, Expr>, TreeError>(TreeError::MissingChild),
                },
            },
    {
        let inner = match trim_paren(&self.syntax) {
            Ok(n) => n,
            Err(e) => {
                return Err(e);
            },
        };
        match nth_node(&inner.children, 0) {
            Some(n) => {
                if n.kind.is_expr() {
                    Ok(MaybeOwned::Owned(Expr { syntax: n.deep_clone() }))
                } else {
                    Err(TreeError::NotAnExpr)
                }
            },
            None => Err(TreeError::MissingChild),
        }
    }

    /// The call's arguments: after unwrapping parenthesization, the second
    /// child node holds them, and every expression-kind node under it is
    /// one argument, in order.
    pub fn args<'a>(&'a self) -> (r: Result<Vec<MaybeOwned<'a, Expr>>, TreeError>)
        ensures
            match spec_trim_paren(self.model()) {
                Err(e) => r == Err::<Vec<MaybeOwned<'a, Expr>>, TreeError>(e),
                Ok(m) => match nth_node_from(m.children, 0, 1) {
                    Some(args_node) => {
                        &&& r matches Ok(v)
                        &&& v@.len() == expr_nodes_from(args_node.children, 0).len()
                        &&& forall|i: int|
                            0 <= i < v@.len() ==> v@[i].value().model() == expr_nodes_from(
                                args_node.children,
                                0,
                            )[i]
                    },
                    None => r == Err::<Vec<MaybeOwned<'a, Expr>>, TreeError>(
                        TreeError::MissingChild,
                    ),
                },
            },
    {
        let inner = match trim_paren(&self.syntax) {
            Ok(n) => n,
            Err(e) => {
                return Err(e);
            },
        };
        match nth_node(&inner.children, 1) {
            Some(args_node) => Ok(collect_exprs(&args_node.children)),
            None => Err(TreeError::MissingChild),
        }
    }
}

impl ast::CallExpr for CallExpr {
    type Ast = ConcreteSyntax;

    fn callee<'a>(&'a self) -> Result<MaybeOwned<'a, Expr>, TreeError> {
        self.callee()
    }

    fn args<'a>(&'a self) -> Result<Vec<MaybeOwned<'a, Expr>>, TreeError> {
        self.args()
    }
}

/// An error in expression position, backed by a concrete syntax node.
#[derive(Debug)]
pub struct ErrorExpr {
    pub syntax: SyntaxNode,
}

impl ErrorExpr {
    /// The mirror of the backing node.
    pub open spec fn model(self) -> NodeModel {
        node_model(self.syntax)
    }
}

impl ast::ErrorExpr for ErrorExpr {
    type Ast = ConcreteSyntax;
}

/// An identifier reference expression backed by a concrete syntax node.
#[derive(Debug)]
pub struct IdentExpr {
    pub syntax: SyntaxNode,
}

impl IdentExpr {
    /// The mirror of the backing node.
    pub open spec fn model(self) -> NodeModel {
        node_model(self.syntax)
    }

    /// The identifier's name: the text of the first token under the node,
    /// parenthesization unwrapped first.
    pub fn name(&self) -> (r: Result<Vec<u8>, TreeError>)
        ensures
            match spec_trim_paren(self.model()) {
                Err(e) => r == Err::<Vec<u8>, TreeError>(e),
                Ok(m) => match spec_first_token(m) {
                    Some(t) => r matches Ok(v) && v@ == t.text,
                    None => r == Err::<Vec<u8>, TreeError>(TreeError::MissingToken),
                },
            },
    {
        let inner = match trim_paren(&self.syntax) {
            Ok(n) => n,
            Err(e) => {
                return Err(e);
            },
        };
        match inner.first_token() {
            Some(t) => Ok(token_text(t)),
            None => Err(TreeError::MissingToken),
        }
    }
}

impl ast::IdentExpr for IdentExpr {
    fn name(&self) -> Result<Vec<u8>, TreeError> {
        self.name()
    }
}

/// A logical expression backed by a concrete syntax node.
#[derive(Debug)]
pub struct LogicalExpr {
    pub syntax: SyntaxNode,
}

impl LogicalExpr {
    /// The mirror of the backing node.
    pub open spec fn model(self) -> NodeModel {
        node_model(self.syntax)
    }

    /// The operator, read from the top-level infix operator token of the
    /// unwrapped node: `&&` denotes And and `||` denotes Or.
    pub fn op(&self) -> (r: Result<LogicalOp, TreeError>)
        ensures
            match spec_trim_paren(self.model()) {
                Err(e) => r == Err::<LogicalOp, TreeError>(e),
                Ok(m) => match find_infix_from(m.children, 0, false) {
                    Some(t) => r == spec_logical_op_of(t.kind),
                    None => r == Err::<LogicalOp, TreeError>(TreeError::MissingOperator),
                },
            },
    {
        let inner = match trim_paren(&self.syntax) {
            Ok(n) => n,
            Err(e) => {
                return Err(e);
            },
        };
        match find_infix_op(&inner.children) {
            Some(t) => match t.kind {
                SyntaxKind::TokenAmpAmp => Ok(LogicalOp::And),
                SyntaxKind::TokenPipePipe => Ok(LogicalOp::Or),
                _ => Err(TreeError::UnknownOperator),
            },
            None => Err(TreeError::MissingOperator),
        }
    }

    /// The left operand: the first child node of the unwrapped node, which
    /// must be an expression.
    pub fn left<'a>(&'a self) -> (r: Result<MaybeOwned<'a, Expr>, TreeError>)
        ensures
            match spec_trim_paren(self.model()) {
                Err(e) => r == Err::<MaybeOwned<'a, Expr>, TreeError>(e),
                Ok(m) => match nth_node_from(m.children, 0, 0) {
                    Some(a) => if a.kind.spec_is_expr() {
                        r matches Ok(w) && w.value().model() == a
                    } else {
                        r == Err::<MaybeOwned<'a, Expr>, TreeError>(TreeError::NotAnExpr)
                    },
                    None => r == Err::<MaybeOwned<'a, Expr>, TreeError>(TreeError::MissingChild),
                },
            },
    {
        let inner = match trim_paren(&self.syntax) {
            Ok(n) => n,
            Err(e) => {
                return Err(e);
            },
        };
        match nth_node(&inner.children, 0) {
            Some(n) => {
                if n.kind.is_expr() {
                    Ok(MaybeOwned::Owned(Expr { syntax: n.deep_clone() }))
                } else {
                    Err(TreeError::NotAnExpr)
                }
            },
            None => Err(TreeError::MissingChild),
        }
    }

    /// The right operand: the second child node of the unwrapped node,
    /// which must be an expression.
    pub fn right<'a>(&'a self) -> (r: Result<MaybeOwned<'a, Expr>, TreeError>)
        ensures
            match spec_trim_paren(self.model()) {
                Err(e) => r == Err::<MaybeOwned<'a, Expr>, TreeError>(e),
                Ok(m) => match nth_node_from(m.children, 0, 1) {
                    Some(a) => if a.kind.spec_is_expr() {
                        r matches Ok(w) && w.value().model() == a
                    } else {
                        r == Err::<MaybeOwned<'a, Expr>, TreeError>(TreeError::NotAnExpr)
                    },
                    None => r == Err::<MaybeOwned<'a, Expr>, TreeError>(TreeError::MissingChild),
                },
            },
    {
        let inner = match trim_paren(&self.syntax) {
            Ok(n) => n,
            Err(e) => {
                return Err(e);
            },
        };
        match nth_node(&inner.children, 1) {
            Some(n) => {
                if n.kind.is_expr() {
                    Ok(MaybeOwned::Owned(Expr { syntax: n.deep_clone() }))
                } else {
                    Err(TreeError::NotAnExpr)
                }
            },
            None => Err(TreeError::MissingChild),
        }
    }
}

impl ast::LogicalExpr for LogicalExpr {
    type Ast = ConcreteSyntax;

    fn op(&self) -> Result<LogicalOp, TreeError> {
        self.op()
    }

    fn left<'a>(&'a self) -> Result<MaybeOwned<'a, Expr>, TreeError> {
        self.left()
    }

    fn right<'a>(&'a self) -> Result<MaybeOwned<'a, Expr>, TreeError> {
        self.right()
    }
}

/// A number literal backed by a concrete syntax node. The literal is
/// exposed as its source text; decoding it to a machine number is host
/// arithmetic outside this library.
#[derive(Debug)]
pub struct NumLit {
    pub syntax: SyntaxNode,
}

impl NumLit {
    /// The mirror of the backing node.
    pub open spec fn model(self) -> NodeModel {
        node_model(self.syntax)
    }

    /// Wraps a node as a number literal when its kind matches.
    pub fn from_syntax(syntax: SyntaxNode) -> (r: Option<NumLit>)
        ensures
            (node_model(syntax).kind == SyntaxKind::NodeNumLit) == (r is Some),
            r matches Some(n) ==> n.model() == node_model(syntax),
    {
        if syntax.kind == SyntaxKind::NodeNumLit {
            Some(NumLit { syntax })
        } else {
            None
        }
    }

    /// The literal's source text: the text of the first token under the
    /// node, parenthesization unwrapped first.
    pub fn text(&self) -> (r: Result<Vec<u8>, TreeError>)
        ensures
            match spec_trim_paren(self.model()) {
                Err(e) => r == Err::<Vec<u8>, TreeError>(e),
                Ok(m) => match spec_first_token(m) {
                    Some(t) => r matches Ok(v) && v@ == t.text,
                    None => r == Err::<Vec<u8>, TreeError>(TreeError::MissingToken),
                },
            },
    {
        let inner = match trim_paren(&self.syntax) {
            Ok(n) => n,
            Err(e) => {
                return Err(e);
            },
        };
        match inner.first_token() {
            Some(t) => Ok(token_text(t)),
            None => Err(TreeError::MissingToken),
        }
    }
}

impl ast::NumLit for NumLit {
    fn text(&self) -> Result<Vec<u8>, TreeError> {
        self.text()
    }
}

/// A sequence expression backed by a concrete syntax node.
#[derive(Debug)]
pub struct SeqExpr {
    pub syntax: SyntaxNode,
}

impl SeqExpr {
    /// The mirror of the backing node.
    pub open spec fn model(self) -> NodeModel {
        node_model(self.syntax)
    }

    /// The member expressions: after unwrapping parenthesization, every
    /// expression-kind child node, in order.
    pub fn exprs<'a>(&'a self) -> (r: Result<Vec<MaybeOwned<'a, Expr>>, TreeError>)
        ensures
            match spec_trim_paren(self.model()) {
                Err(e) => r == Err::<Vec<MaybeOwned<'a, Expr>>, TreeError>(e),
                Ok(m) => {
                    &&& r matches Ok(v)
                    &&& v@.len() == expr_nodes_from(m.children, 0).len()
                    &&& forall|i: int|
                        0 <= i < v@.len() ==> v@[i].value().model() == expr_nodes_from(
                            m.children,
                            0,
                        )[i]
                },
            },
    {
        let inner = match trim_paren(&self.syntax) {
            Ok(n) => n,
            Err(e) => {
                return Err(e);
            },
        };
        Ok(collect_exprs(&inner.children))
    }
}

impl ast::SeqExpr for SeqExpr {
    type Ast = ConcreteSyntax;

    fn exprs<'a>(&'a self) -> Result<Vec<MaybeOwned<'a, Expr>>, TreeError> {
        self.exprs()
    }
}

/// A string literal backed by a concrete syntax node.
#[derive(Debug)]
pub struct StrLit {
    pub syntax: SyntaxNode,
}

impl StrLit {
    /// The mirror of the backing node.
    pub open spec fn model(self) -> NodeModel {
        node_model(self.syntax)
    }

    /// Wraps a node as a string literal when its kind matches.
    pub fn from_syntax(syntax: SyntaxNode) -> (r: Option<StrLit>)
        ensures
            (node_model(syntax).kind == SyntaxKind::NodeStrLit) == (r is Some),
            r matches Some(s) ==> s.model() == node_model(syntax),
    {
        if syntax.kind == SyntaxKind::NodeStrLit {
            Some(StrLit { syntax })
        } else {
            None
        }
    }

    /// The literal's value: the text of the first token under the unwrapped
    /// node, unescaped. A literal whose token fails to unescape has no
    /// value.
    pub fn value(&self) -> (r: Result<Vec<u8>, TreeError>)
        ensures
            match spec_trim_paren(self.model()) {
                Err(e) => r == Err::<Vec<u8>, TreeError>(e),
                Ok(m) => match spec_first_token(m) {
                    Some(t) => match spec_unescape_string(t.text) {
                        Some(out) => r matches Ok(v) && v@ == out,
                        None => r == Err::<Vec<u8>, TreeError>(TreeError::UnexpectedToken),
                    },
                    None => r == Err::<Vec<u8>, TreeError>(TreeError::MissingToken),
                },
            },
    {
        let inner = match trim_paren(&self.syntax) {
            Ok(n) => n,
            Err(e) => {
                return Err(e);
            },
        };
        match inner.first_token() {
            Some(t) => match unescape_string(t.text.as_slice()) {
                Some(v) => Ok(v),
                None => Err(TreeError::UnexpectedToken),
            },
            None => Err(TreeError::MissingToken),
        }
    }
}

impl ast::StrLit for StrLit {
    fn value(&self) -> Result<Vec<u8>, TreeError> {
        self.value()
    }
}

/// A unary expression backed by a concrete syntax node.
#[derive(Debug)]
pub struct UnaryExpr {
    pub syntax: SyntaxNode,
}

impl UnaryExpr {
    /// The mirror of the backing node.
    pub open spec fn model(self) -> NodeModel {
        node_model(self.syntax)
    }

    /// The operator, read from the first prefix-operator token of the
    /// unwrapped node. An update operator in unary position is refused.
    pub fn op(&self) -> (r: Result<UnaryOp, TreeError>)
        ensures
            match spec_trim_paren(self.model()) {
                Err(e) => r == Err::<UnaryOp, TreeError>(e),
                Ok(m) => match find_prefix_op_from(m.children, 0) {
                    Some(t) => r == spec_unary_op_of(t.kind),
                    None => r == Err::<UnaryOp, TreeError>(TreeError::MissingOperator),
                },
            },
    {
        let inner = match trim_paren(&self.syntax) {
            Ok(n) => n,
            Err(e) => {
                return Err(e);
            },
        };
        match find_prefix_op(&inner.children) {
            Some(t) => match t.kind {
                SyntaxKind::TokenTilde => Ok(UnaryOp::BitNot),
                SyntaxKind::TokenMinus => Ok(UnaryOp::Neg),
                SyntaxKind::TokenExcl => Ok(UnaryOp::Not),
                SyntaxKind::TokenPlus => Ok(UnaryOp::ToNum),
                SyntaxKind::TokenTypeof => Ok(UnaryOp::TypeOf),
                SyntaxKind::TokenVoid => Ok(UnaryOp::Void),
                _ => Err(TreeError::UnknownOperator),
            },
            None => Err(TreeError::MissingOperator),
        }
    }

    /// The operand: the first child node of the unwrapped node, which must
    /// be an expression.
    pub fn arg<'a>(&'a self) -> (r: Result<MaybeOwned<'a, Expr>, TreeError>)
        ensures
            match spec_trim_paren(self.model()) {
                Err(e) => r == Err::<MaybeOwned<'a, Expr>, TreeError>(e),
                Ok(m) => match nth_node_from(m.children, 0, 0) {
                    Some(a) => if a.kind.spec_is_expr() {
                        r matches Ok(w) && w.value().model() == a
                    } else {
                        r == Err::<MaybeOwned<'a, Expr>, TreeError>(TreeError::NotAnExpr)
                    },
                    None => r == Err::<MaybeOwned<'a, Expr>, TreeError>(TreeError::MissingChild),
                },
            },
    {
        let inner = match trim_paren(&self.syntax) {
            Ok(n) => n,
            Err(e) => {
                return Err(e);
            },
        };
        match nth_node(&inner.children, 0) {
            Some(n) => {
                if n.kind.is_expr() {
                    Ok(MaybeOwned::Owned(Expr { syntax: n.deep_clone() }))
                } else {
                    Err(TreeError::NotAnExpr)
                }
            },
            None => Err(TreeError::MissingChild),
        }
    }
}

impl ast::UnaryExpr for UnaryExpr {
    type Ast = ConcreteSyntax;

    fn op(&self) -> Result<UnaryOp, TreeError> {
        self.op()
    }

    fn arg<'a>(&'a self) -> Result<MaybeOwned<'a, Expr>, TreeError> {
        self.arg()
    }
}

/// An update expression backed by a concrete syntax node.
#[derive(Debug)]
pub struct UpdateExpr {
    pub syntax: SyntaxNode,
}

impl UpdateExpr {
    /// The mirror of the backing node.
    pub open spec fn model(self) -> NodeModel {
        node_model(self.syntax)
    }

    /// The operator: for a postfix node, the first postfix-operator token;
    /// for a prefix node, the first prefix-operator token, which must be an
    /// update operator; any other unwrapped kind is refused.
    pub fn op(&self) -> (r: Result<UpdateOp, TreeError>)
        ensures
            match spec_trim_paren(self.model()) {
                Err(e) => r == Err::<UpdateOp, TreeError>(e),
                Ok(m) => {
                    if m.kind == SyntaxKind::NodePostfixExpr {
                        match find_postfix_op_from(m.children, 0) {
                            Some(t) => r == spec_postfix_update_op_of(t.kind),
                            None => r == Err::<UpdateOp, TreeError>(TreeError::MissingOperator),
                        }
                    } else if m.kind == SyntaxKind::NodePrefixExpr {
                        match find_prefix_op_from(m.children, 0) {
                            Some(t) => r == spec_prefix_update_op_of(t.kind),
                            None => r == Err::<UpdateOp, TreeError>(TreeError::MissingOperator),
                        }
                    } else {
                        r == Err::<UpdateOp, TreeError>(TreeError::UnexpectedKind)
                    }
                },
            },
    {
        let inner = match trim_paren(&self.syntax) {
            Ok(n) => n,
            Err(e) => {
                return Err(e);
            },
        };
        match inner.kind {
            SyntaxKind::NodePostfixExpr => match find_postfix_op(&inner.children) {
                Some(t) => match t.kind {
                    SyntaxKind::TokenMinusMinus => Ok(UpdateOp::PostDec),
                    SyntaxKind::TokenPlusPlus => Ok(UpdateOp::PostInc),
                    _ => Err(TreeError::UnknownOperator),
                },
                None => Err(TreeError::MissingOperator),
            },
            SyntaxKind::NodePrefixExpr => match find_prefix_op(&inner.children) {
                Some(t) => match t.kind {
                    SyntaxKind::TokenDelete => Ok(UpdateOp::Delete),
                    SyntaxKind::TokenMinusMinus => Ok(UpdateOp::PreDec),
                    SyntaxKind::TokenPlusPlus => Ok(UpdateOp::PreInc),
                    _ => Err(TreeError::UnknownOperator),
                },
                None => Err(TreeError::MissingOperator),
            },
            _ => Err(TreeError::UnexpectedKind),
        }
    }

    /// The operand: the first child node of the unwrapped node, which must
    /// be an expression.
    pub fn arg<'a>(&'a self) -> (r: Result<MaybeOwned<'a, Expr>, TreeError>)
        ensures
            match spec_trim_paren(self.model()) {
                Err(e) => r == Err::<MaybeOwned<'a, Expr>, TreeError>(e),
                Ok(m) => match nth_node_from(m.children, 0, 0) {
                    Some(a) => if a.kind.spec_is_expr() {
                        r matches Ok(w) && w.value().model() == a
                    } else {
                        r == Err::<MaybeOwned<'a, Expr>, TreeError>(TreeError::NotAnExpr)
                    },
                    None => r == Err::<MaybeOwned<'a, Expr>, TreeError>(TreeError::MissingChild),
                },
            },
    {
        let inner = match trim_paren(&self.syntax) {
            Ok(n) => n,
            Err(e) => {
                return Err(e);
            },
        };
        match nth_node(&inner.children, 0) {
            Some(n) => {
                if n.kind.is_expr() {
                    Ok(MaybeOwned::Owned(Expr { syntax: n.deep_clone() }))
                } else {
                    Err(TreeError::NotAnExpr)
                }
            },
            None => Err(TreeError::MissingChild),
        }
    }
}

impl ast::UpdateExpr for UpdateExpr {
    type Ast = ConcreteSyntax;

    fn op(&self) -> Result<UpdateOp, TreeError> {
        self.op()
    }

    fn arg<'a>(&'a self) -> Result<MaybeOwned<'a, Expr>, TreeError> {
        self.arg()
    }
}

// ---------------------------------------------------------------------------
// Patterns
// ---------------------------------------------------------------------------

/// A pattern backed by a concrete syntax node.
#[derive(Debug)]
pub struct Pat {
    pub syntax: SyntaxNode,
}

impl Pat {
    /// The mirror of the backing node.
    pub open spec fn model(self) -> NodeModel {
        node_model(self.syntax)
    }

    /// Downcasts the pattern to its concrete production: an identifier
    /// pattern, a member pattern for either member expression shape, or the
    /// syntax error arm for any other kind.
    pub fn cast<'a>(&'a self) -> (r: PatCast<'a, ConcreteSyntax>)
        ensures
            ({
                let m0 = self.model();
                if m0.kind == SyntaxKind::NodeIdent {
                    r matches PatCast::Ident(w) && w.value().model() == m0
                } else if m0.kind == SyntaxKind::NodeIdentMemberExpr || m0.kind
                    == SyntaxKind::NodeComputedMemberExpr {
                    r matches PatCast::Member(w) && w.value().model() == m0
                } else {
                    r is SyntaxError
                }
            }),
    {
        match self.syntax.kind {
            SyntaxKind::NodeIdent => PatCast::Ident(
                MaybeOwned::Owned(IdentPat { syntax: self.syntax.deep_clone() }),
            ),
            SyntaxKind::NodeIdentMemberExpr | SyntaxKind::NodeComputedMemberExpr => PatCast::Member(
                MaybeOwned::Owned(MemberPat { syntax: self.syntax.deep_clone() }),
            ),
            _ => PatCast::SyntaxError,
        }
    }
}

impl ast::Pat for Pat {
    type Ast = ConcreteSyntax;

    fn cast<'a>(&'a self) -> PatCast<'a, ConcreteSyntax> {
        self.cast()
    }
}

/// A member pattern backed by a concrete syntax node.
#[derive(Debug)]
pub struct MemberPat {
    pub syntax: SyntaxNode,
}

impl MemberPat {
    /// The mirror of the backing node.
    pub open spec fn model(self) -> NodeModel {
        node_model(self.syntax)
    }

    /// The expression whose member is named: the first child node, which
    /// must be an expression.
    pub fn base<'a>(&'a self) -> (r: Result<MaybeOwned<'a, Expr>, TreeError>)
        ensures
            match nth_node_from(self.model().children, 0, 0) {
                Some(m) => if m.kind.spec_is_expr() {
                    r matches Ok(w) && w.value().model() == m
                } else {
                    r == Err::<MaybeOwned<'a, Expr>, TreeError>(TreeError::NotAnExpr)
                },
                None => r == Err::<MaybeOwned<'a, Expr>, TreeError>(TreeError::MissingChild),
            },
    {
        match nth_node(&self.syntax.children, 0) {
            Some(n) => {
                if n.kind.is_expr() {
                    Ok(MaybeOwned::Owned(Expr { syntax: n.deep_clone() }))
                } else {
                    Err(TreeError::NotAnExpr)
                }
            },
            None => Err(TreeError::MissingChild),
        }
    }

    /// The member key: the second child node, which must be an expression —
    /// the named member identifier of `foo.bar`, or the computed key
    /// expression of `foo["bar"]`.
    pub fn key<'a>(&'a self) -> (r: Result<MaybeOwned<'a, Expr>, TreeError>)
        ensures
            match nth_node_from(self.model().children, 0, 1) {
                Some(m) => if m.kind.spec_is_expr() {
                    r matches Ok(w) && w.value().model() == m
                } else {
                    r == Err::<MaybeOwned<'a, Expr>, TreeError>(TreeError::NotAnExpr)
                },
                None => r == Err::<MaybeOwned<'a, Expr>, TreeError>(TreeError::MissingChild),
            },
    {
        match nth_node(&self.syntax.children, 1) {
            Some(n) => {
                if n.kind.is_expr() {
                    Ok(MaybeOwned::Owned(Expr { syntax: n.deep_clone() }))
                } else {
                    Err(TreeError::NotAnExpr)
                }
            },
            None => Err(TreeError::MissingChild),
        }
    }
}

impl ast::MemberPat for MemberPat {
    type Ast = ConcreteSyntax;

    fn base<'a>(&'a self) -> Result<MaybeOwned<'a, Expr>, TreeError> {
        self.base()
    }

    fn key<'a>(&'a self) -> Result<MaybeOwned<'a, Expr>, TreeError> {
        self.key()
    }
}

/// An identifier pattern backed by a concrete syntax node.
#[derive(Debug)]
pub struct IdentPat {
    pub syntax: SyntaxNode,
}

impl IdentPat {
    /// The mirror of the backing node.
    pub open spec fn model(self) -> NodeModel {
        node_model(self.syntax)
    }

    /// Wraps a node as an identifier pattern when its kind matches.
    pub fn from_syntax(syntax: SyntaxNode) -> (r: Option<IdentPat>)
        ensures
            (node_model(syntax).kind == SyntaxKind::NodeIdent) == (r is Some),
            r matches Some(p) ==> p.model() == node_model(syntax),
    {
        if syntax.kind == SyntaxKind::NodeIdent {
            Some(IdentPat { syntax })
        } else {
            None
        }
    }

    /// The identifier's name: the text of the first token under the node,
    /// parenthesization unwrapped first.
    pub fn name(&self) -> (r: Result<Vec<u8>, TreeError>)
        ensures
            match spec_trim_paren(self.model()) {
                Err(e) => r == Err::<Vec<u8>, TreeError>(e),
                Ok(m) => match spec_first_token(m) {
                    Some(t) => r matches Ok(v) && v@ == t.text,
                    None => r == Err::<Vec<u8>, TreeError>(TreeError::MissingToken),
                },
            },
    {
        let inner = match trim_paren(&self.syntax) {
            Ok(n) => n,
            Err(e) => {
                return Err(e);
            },
        };
        match inner.first_token() {
            Some(t) => Ok(token_text(t)),
            None => Err(TreeError::MissingToken),
        }
    }
}

impl ast::IdentPat for IdentPat {
    fn name(&self) -> Result<Vec<u8>, TreeError> {
        self.name()
    }
}


} // verus!
