//! Immutable concrete syntax tree.
//!
//! A tree of kinded nodes and tokens, built by an external parser from the
//! tokenizer's output. A token owns its exact text; a node owns its ordered
//! children and stores no text of its own. Equality is structural, so two
//! independently built identical subtrees are interchangeable, and no
//! operation here ever mutates a tree in place.
//!
//! Specifications speak of the ghost mirror types [`NodeModel`],
//! [`TokenModel`] and [`SymbolModel`], reached through [`node_model`].

use vstd::prelude::*;

use crate::kinds::SyntaxKind;

verus! {

/// A terminal symbol of the syntax tree: a kind and its exact text.
#[derive(Debug, Eq, PartialEq, Hash)]
pub struct SyntaxToken {
    pub kind: SyntaxKind,
    pub text: Vec<u8>,
}

/// A non-terminal symbol of the syntax tree: a kind and its ordered children.
#[derive(Debug, Eq, PartialEq, Hash)]
pub struct SyntaxNode {
    pub kind: SyntaxKind,
    pub children: Vec<SyntaxSymbol>,
}

/// A syntax symbol: token (terminal) or node (non-terminal).
#[derive(Debug, Eq, PartialEq, Hash)]
pub enum SyntaxSymbol {
    Node(SyntaxNode),
    Token(SyntaxToken),
}

/// Ghost mirror of a token: kind and text as a sequence.
pub struct TokenModel {
    pub kind: SyntaxKind,
    pub text: Seq<u8>,
}

/// Ghost mirror of a node: kind and children as a sequence.
pub struct NodeModel {
    pub kind: SyntaxKind,
    pub children: Seq<SymbolModel>,
}

/// Ghost mirror of a symbol.
pub enum SymbolModel {
    Node(NodeModel),
    Token(TokenModel),
}

/// The ghost mirror of a token.
pub open spec fn token_model(t: SyntaxToken) -> TokenModel {
    TokenModel { kind: t.kind, text: t.text@ }
}

/// The ghost mirror of a symbol.
pub open spec fn symbol_model(sym: SyntaxSymbol) -> SymbolModel
    decreases sym,
{
    match sym {
        SyntaxSymbol::Node(n) => SymbolModel::Node(node_model(n)),
        SyntaxSymbol::Token(t) => SymbolModel::Token(token_model(t)),
    }
}

/// The ghost mirrors of a sequence of symbols, in order.
pub open spec fn symbols_model(s: Seq<SyntaxSymbol>) -> Seq<SymbolModel>
    decreases s,
{
    if s.len() == 0 {
        Seq::empty()
    } else {
        seq![symbol_model(s[0])] + symbols_model(s.drop_first())
    }
}

/// The ghost mirror of a node.
pub open spec fn node_model(n: SyntaxNode) -> NodeModel
    decreases n,
{
    NodeModel { kind: n.kind, children: symbols_model(n.children@) }
}

/// `symbols_model` maps each symbol to its mirror, index by index.
pub broadcast proof fn lemma_symbols_model(s: Seq<SyntaxSymbol>)
    ensures
        #[trigger] symbols_model(s).len() == s.len(),
        forall|i: int| 0 <= i < s.len() ==> symbols_model(s)[i] == symbol_model(s[i]),
    decreases s,
{
    if s.len() > 0 {
        lemma_symbols_model(s.drop_first());
    }
}

/// A tree-shape inconsistency: the shape that an external parser is bound to
/// give a node was not found. These signal an upstream bug, not a user input
/// error, and are reported as values rather than by failing.
#[derive(Debug, Eq, PartialEq, Copy, Clone, Hash, Structural)]
pub enum TreeError {
    /// A node stands where an expression kind was required.
    NotAnExpr,
    /// A child node has a kind that its position does not allow.
    UnexpectedKind,
    /// A required child node is missing.
    MissingChild,
    /// A required token is missing from the subtree.
    MissingToken,
    /// No operator token was found among a node's direct children.
    MissingOperator,
    /// The operator token found is not in the table for its category.
    UnknownOperator,
    /// A token of an unexpected kind stands where a literal was required.
    UnexpectedToken,
}

// ---------------------------------------------------------------------------
// Copying
// ---------------------------------------------------------------------------

/// Copies a byte vector.
fn copy_bytes(v: &Vec<u8>) -> (r: Vec<u8>)
    ensures
        r@ == v@,
{
    let mut r: Vec<u8> = Vec::new();
    let mut j: usize = 0;
    while j < v.len()
        invariant
            j <= v@.len(),
            r@ == v@.subrange(0, j as int),
        decreases v@.len() - j,
    {
        r.push(v[j]);
        j = j + 1;
        assert(r@ =~= v@.subrange(0, j as int));
    }
    proof {
        assert(v@.subrange(0, v@.len() as int) =~= v@);
    }
    r
}

impl SyntaxToken {
    /// An independent copy with the same kind and text.
    pub fn deep_clone(&self) -> (r: SyntaxToken)
        ensures
            token_model(r) == token_model(*self),
    {
        SyntaxToken { kind: self.kind, text: copy_bytes(&self.text) }
    }
}

impl SyntaxNode {
    /// An independent copy of the whole subtree, with the same mirror. Two
    /// such copies are interchangeable: equality is structural.
    #[verifier::loop_isolation(false)]
    pub fn deep_clone(&self) -> (r: SyntaxNode)
        ensures
            node_model(r) == node_model(*self),
        decreases *self,
    {
        let mut children: Vec<SyntaxSymbol> = Vec::new();
        let mut j: usize = 0;
        while j < self.children.len()
            invariant
                j <= self.children@.len(),
                children@.len() == j,
                forall|k: int|
                    0 <= k < j ==> symbol_model(children@[k]) == symbol_model(
                        self.children@[k],
                    ),
            decreases self.children@.len() - j,
        {
            let sym = &self.children[j];
            let copy = match sym {
                SyntaxSymbol::Node(n) => SyntaxSymbol::Node(n.deep_clone()),
                SyntaxSymbol::Token(t) => SyntaxSymbol::Token(t.deep_clone()),
            };
            children.push(copy);
            j = j + 1;
        }
        proof {
            lemma_symbols_model(children@);
            lemma_symbols_model(self.children@);
            assert(symbols_model(children@) =~= symbols_model(self.children@));
        }
        SyntaxNode { kind: self.kind, children }
    }
}

// ---------------------------------------------------------------------------
// Navigation
// ---------------------------------------------------------------------------

/// The first child node at or after position `i`, skipping tokens.
pub open spec fn first_node_from(cs: Seq<SymbolModel>, i: int) -> Option<NodeModel>
    decreases cs.len() - i,
{
    if i < 0 || i >= cs.len() {
        None
    } else {
        match cs[i] {
            SymbolModel::Node(n) => Some(n),
            SymbolModel::Token(_) => first_node_from(cs, i + 1),
        }
    }
}

/// The first token at or after position `i` whose kind is a postfix update
/// operator, skipping nodes and every other token.
pub open spec fn find_postfix_op_from(cs: Seq<SymbolModel>, i: int) -> Option<TokenModel>
    decreases cs.len() - i,
{
    if i < 0 || i >= cs.len() {
        None
    } else {
        match cs[i] {
            SymbolModel::Token(t) => if t.kind.spec_is_postfix_update_op() {
                Some(t)
            } else {
                find_postfix_op_from(cs, i + 1)
            },
            SymbolModel::Node(_) => find_postfix_op_from(cs, i + 1),
        }
    }
}

/// The first token at or after position `i` whose kind is a prefix operator,
/// skipping nodes and every other token.
pub open spec fn find_prefix_op_from(cs: Seq<SymbolModel>, i: int) -> Option<TokenModel>
    decreases cs.len() - i,
{
    if i < 0 || i >= cs.len() {
        None
    } else {
        match cs[i] {
            SymbolModel::Token(t) => if t.kind.spec_is_prefix_op() {
                Some(t)
            } else {
                find_prefix_op_from(cs, i + 1)
            },
            SymbolModel::Node(_) => find_prefix_op_from(cs, i + 1),
        }
    }
}

/// The first infix operator token at or after position `i` that stands after
/// at least one child node (the left operand), so that an operator-like
/// token can never be taken for the top-level operator before an operand was
/// seen. `found_left` records whether a node was already passed.
pub open spec fn find_infix_from(cs: Seq<SymbolModel>, i: int, found_left: bool) -> Option<
    TokenModel,
>
    decreases cs.len() - i,
{
    if i < 0 || i >= cs.len() {
        None
    } else {
        match cs[i] {
            SymbolModel::Node(_) => find_infix_from(cs, i + 1, true),
            SymbolModel::Token(t) => if found_left && t.kind.spec_is_infix_op() {
                Some(t)
            } else {
                find_infix_from(cs, i + 1, found_left)
            },
        }
    }
}

/// The first token of the subtree under the symbols `cs` from position `i`
/// on, in document order: the leftmost token, descending into nodes and
/// passing over childless subtrees.
pub open spec fn first_token_from(cs: Seq<SymbolModel>, i: int) -> Option<TokenModel>
    decreases cs, cs.len() - i,
{
    if i < 0 || i >= cs.len() {
        None
    } else {
        match cs[i] {
            SymbolModel::Token(t) => Some(t),
            SymbolModel::Node(n) => match first_token_from(n.children, 0) {
                Some(t) => Some(t),
                None => first_token_from(cs, i + 1),
            },
        }
    }
}

/// The first token of the subtree under `m`, in document order.
pub open spec fn spec_first_token(m: NodeModel) -> Option<TokenModel> {
    first_token_from(m.children, 0)
}

impl SyntaxNode {
    /// The first child node, skipping tokens.
    #[verifier::loop_isolation(false)]
    pub fn first_child(&self) -> (r: Option<&SyntaxNode>)
        ensures
            match first_node_from(node_model(*self).children, 0) {
                Some(m) => r matches Some(n) && node_model(*n) == m,
                None => r is None,
            },
    {
        proof {
            lemma_symbols_model(self.children@);
        }
        let ghost cs = node_model(*self).children;
        let mut j: usize = 0;
        while j < self.children.len()
            invariant
                j <= self.children@.len(),
                cs == node_model(*self).children,
                first_node_from(cs, 0) == first_node_from(cs, j as int),
            decreases self.children@.len() - j,
        {
            match &self.children[j] {
                SyntaxSymbol::Node(n) => {
                    return Some(n);
                },
                SyntaxSymbol::Token(_) => {},
            }
            j = j + 1;
        }
        None
    }

    /// The first token of the whole subtree, in document order.
    #[verifier::loop_isolation(false)]
    pub fn first_token(&self) -> (r: Option<&SyntaxToken>)
        ensures
            match spec_first_token(node_model(*self)) {
                Some(m) => r matches Some(t) && token_model(*t) == m,
                None => r is None,
            },
        decreases *self,
    {
        proof {
            lemma_symbols_model(self.children@);
        }
        let ghost cs = node_model(*self).children;
        let mut j: usize = 0;
        while j < self.children.len()
            invariant
                j <= self.children@.len(),
                cs == node_model(*self).children,
                first_token_from(cs, 0) == first_token_from(cs, j as int),
            decreases self.children@.len() - j,
        {
            match &self.children[j] {
                SyntaxSymbol::Token(t) => {
                    return Some(t);
                },
                SyntaxSymbol::Node(n) => {
                    match n.first_token() {
                        Some(t) => {
                            return Some(t);
                        },
                        None => {},
                    }
                },
            }
            j = j + 1;
        }
        None
    }
}

/// Finds the first token among `children` whose kind is a postfix update
/// operator.
#[verifier::loop_isolation(false)]
pub fn find_postfix_op(children: &Vec<SyntaxSymbol>) -> (r: Option<&SyntaxToken>)
    ensures
        match find_postfix_op_from(symbols_model(children@), 0) {
            Some(m) => r matches Some(t) && token_model(*t) == m,
            None => r is None,
        },
{
    proof {
        lemma_symbols_model(children@);
    }
    let ghost cs = symbols_model(children@);
    let mut j: usize = 0;
    while j < children.len()
        invariant
            j <= children@.len(),
            find_postfix_op_from(cs, 0) == find_postfix_op_from(cs, j as int),
        decreases children@.len() - j,
    {
        match &children[j] {
            SyntaxSymbol::Token(t) => {
                if t.kind.is_postfix_update_op() {
                    return Some(t);
                }
            },
            SyntaxSymbol::Node(_) => {},
        }
        j = j + 1;
    }
    None
}

/// Finds the first token among `children` whose kind is a prefix operator.
#[verifier::loop_isolation(false)]
pub fn find_prefix_op(children: &Vec<SyntaxSymbol>) -> (r: Option<&SyntaxToken>)
    ensures
        match find_prefix_op_from(symbols_model(children@), 0) {
            Some(m) => r matches Some(t) && token_model(*t) == m,
            None => r is None,
        },
{
    proof {
        lemma_symbols_model(children@);
    }
    let ghost cs = symbols_model(children@);
    let mut j: usize = 0;
    while j < children.len()
        invariant
            j <= children@.len(),
            find_prefix_op_from(cs, 0) == find_prefix_op_from(cs, j as int),
        decreases children@.len() - j,
    {
        match &children[j] {
            SyntaxSymbol::Token(t) => {
                if t.kind.is_prefix_op() {
                    return Some(t);
                }
            },
            SyntaxSymbol::Node(_) => {},
        }
        j = j + 1;
    }
    None
}

/// Finds the top-level infix operator token among `children`: the first
/// infix-operator token standing after at least one child node.
#[verifier::loop_isolation(false)]
pub fn find_infix_op(children: &Vec<SyntaxSymbol>) -> (r: Option<&SyntaxToken>)
    ensures
        match find_infix_from(symbols_model(children@), 0, false) {
            Some(m) => r matches Some(t) && token_model(*t) == m,
            None => r is None,
        },
{
    proof {
        lemma_symbols_model(children@);
    }
    let ghost cs = symbols_model(children@);
    let mut found_left: bool = false;
    let mut j: usize = 0;
    while j < children.len()
        invariant
            j <= children@.len(),
            cs == symbols_model(children@),
            find_infix_from(cs, 0, false) == find_infix_from(cs, j as int, found_left),
        decreases children@.len() - j,
    {
        match &children[j] {
            SyntaxSymbol::Token(t) => {
                if found_left && t.kind.is_infix_op() {
                    return Some(t);
                }
            },
            SyntaxSymbol::Node(_) => {
                found_left = true;
            },
        }
        j = j + 1;
    }
    None
}

/// Paren-transparency of ambiguity resolution: which token the infix scan
/// finds depends only on where tokens and child nodes stand, never on what
/// a child node holds. So wrapping an operand in a parenthesized expression
/// node — or replacing it by any other node — cannot change which operator
/// token resolves an infix node.
pub proof fn lemma_find_infix_ignores_node_contents(
    cs: Seq<SymbolModel>,
    j: int,
    w: NodeModel,
    i: int,
    found_left: bool,
)
    requires
        0 <= j < cs.len(),
        cs[j] is Node,
        0 <= i,
    ensures
        find_infix_from(cs.update(j, SymbolModel::Node(w)), i, found_left) == find_infix_from(
            cs,
            i,
            found_left,
        ),
    decreases cs.len() - i,
{
    let cs2 = cs.update(j, SymbolModel::Node(w));
    if i < cs.len() {
        match cs[i] {
            SymbolModel::Node(_) => {
                lemma_find_infix_ignores_node_contents(cs, j, w, i + 1, true);
            },
            SymbolModel::Token(t) => {
                if !(found_left && t.kind.spec_is_infix_op()) {
                    lemma_find_infix_ignores_node_contents(cs, j, w, i + 1, found_left);
                }
            },
        }
    }
}

// ---------------------------------------------------------------------------
// Paren trimming
// ---------------------------------------------------------------------------

/// The height of a symbol: the height of its node, or zero for a token.
pub open spec fn sym_height(m: SymbolModel) -> nat
    decreases m,
{
    match m {
        SymbolModel::Node(n) => node_height(n),
        SymbolModel::Token(_) => 0,
    }
}

/// The height of a node: one more than the greatest height among its
/// children.
pub open spec fn node_height(m: NodeModel) -> nat
    decreases m,
{
    1 + syms_height(m.children)
}

/// The greatest height among the symbols of `cs`.
pub open spec fn syms_height(cs: Seq<SymbolModel>) -> nat
    decreases cs,
{
    if cs.len() == 0 {
        0
    } else {
        let h = sym_height(cs[0]);
        let r = syms_height(cs.drop_first());
        if h > r {
            h
        } else {
            r
        }
    }
}

/// Every symbol of `cs` is at most as high as `cs` as a whole.
proof fn lemma_sym_height_le(cs: Seq<SymbolModel>, i: int)
    requires
        0 <= i < cs.len(),
    ensures
        sym_height(cs[i]) <= syms_height(cs),
    decreases cs,
{
    if i > 0 {
        lemma_sym_height_le(cs.drop_first(), i - 1);
    }
}

/// The first child node found in `cs` is lower than `cs` as a whole.
pub proof fn lemma_first_node_height(cs: Seq<SymbolModel>, i: int)
    requires
        0 <= i,
    ensures
        first_node_from(cs, i) matches Some(n) ==> node_height(n) <= syms_height(cs),
    decreases cs.len() - i,
{
    if i < cs.len() {
        match cs[i] {
            SymbolModel::Node(n) => {
                lemma_sym_height_le(cs, i);
            },
            SymbolModel::Token(_) => {
                lemma_first_node_height(cs, i + 1);
            },
        }
    }
}

/// The first non-paren node under `m`, reached by descending through the
/// sole child of each parenthesized expression node, or the tree-shape error
/// met on the way: a non-expression kind, or a parenthesized expression
/// without a child node.
pub open spec fn spec_trim_paren(m: NodeModel) -> Result<NodeModel, TreeError>
    decreases node_height(m),
    via spec_trim_paren_decreases
{
    if !m.kind.spec_is_expr() {
        Err(TreeError::NotAnExpr)
    } else if m.kind == SyntaxKind::NodeParenExpr {
        match first_node_from(m.children, 0) {
            Some(inner) => spec_trim_paren(inner),
            None => Err(TreeError::MissingChild),
        }
    } else {
        Ok(m)
    }
}

#[via_fn]
proof fn spec_trim_paren_decreases(m: NodeModel) {
    if m.kind.spec_is_expr() && m.kind == SyntaxKind::NodeParenExpr {
        lemma_first_node_height(m.children, 0);
    }
}

/// Paren-transparency of casting: a parenthesized expression node trims to
/// whatever its sole child node trims to, so wrapping a whole expression in
/// parentheses never changes what it casts to.
pub proof fn lemma_trim_paren_transparent(w: NodeModel)
    requires
        w.kind == SyntaxKind::NodeParenExpr,
    ensures
        first_node_from(w.children, 0) matches Some(inner) ==> spec_trim_paren(w)
            == spec_trim_paren(inner),
{
}

/// Trimming stops at a node that no further trimming changes: paren
/// trimming is idempotent.
pub proof fn lemma_trim_paren_idempotent(m: NodeModel)
    ensures
        spec_trim_paren(m) matches Ok(t) ==> spec_trim_paren(t) == Ok::<NodeModel, TreeError>(t),
    decreases node_height(m),
{
    lemma_first_node_height(m.children, 0);
    if m.kind.spec_is_expr() && m.kind == SyntaxKind::NodeParenExpr {
        match first_node_from(m.children, 0) {
            Some(inner) => {
                lemma_trim_paren_idempotent(inner);
            },
            None => {},
        }
    }
}

/// Finds the first non-paren expression node, `n` itself included: while the
/// node at hand is a parenthesized expression, step to its sole child node.
/// The walk is an explicit loop, one paren layer per step, bounded by the
/// height of the node rather than by any recursion. A non-expression kind
/// on the way, or a parenthesized expression without a child node, is a
/// tree-shape error.
#[verifier::loop_isolation(false)]
pub fn trim_paren(n: &SyntaxNode) -> (r: Result<&SyntaxNode, TreeError>)
    ensures
        match spec_trim_paren(node_model(*n)) {
            Ok(m) => r matches Ok(t) && node_model(*t) == m,
            Err(e) => r matches Err(x) && x == e,
        },
{
    let mut cur: &SyntaxNode = n;
    loop
        invariant
            spec_trim_paren(node_model(*n)) == spec_trim_paren(node_model(*cur)),
        decreases node_height(node_model(*cur)),
    {
        if !cur.kind.is_expr() {
            return Err(TreeError::NotAnExpr);
        }
        if cur.kind != SyntaxKind::NodeParenExpr {
            return Ok(cur);
        }
        match cur.first_child() {
            Some(inner) => {
                proof {
                    lemma_first_node_height(node_model(*cur).children, 0);
                }
                cur = inner;
            },
            None => {
                return Err(TreeError::MissingChild);
            },
        }
    }
}

} // verus!
