//! JSON serialization of the owned abstract syntax tree.
//!
//! Each node serializes to a tagged record whose `"type"` field holds the
//! grammar production name, with field names and operator symbols forming
//! the wire contract; a script root serializes to its `"body"` list alone.
//! The exact bytes produced are pinned down by the spec functions here, so
//! the output is the same on every machine.

use vstd::prelude::*;

use crate::ast::{
    bin_op_symbol, logical_op_symbol, spec_bin_op_symbol, spec_logical_op_symbol,
};
use crate::owned::{Expr, Script, Stmt, VarDecl, VarStmt};

verus! {

/// How one byte of a string value is written inside a JSON string: the
/// quote and the backslash are escaped, the named control characters use
/// their short escapes, any other control byte uses a `\u00` escape with
/// two lowercase hexadecimal digits, and every other byte stands for
/// itself.
pub open spec fn json_escape_byte(b: u8) -> Seq<u8> {
    if b == 34 {  // "
        seq![92u8, 34u8]
    } else if b == 92 {  // backslash
        seq![92u8, 92u8]
    } else if b == 8 {
        seq![92u8, 98u8]
    } else if b == 9 {
        seq![92u8, 116u8]
    } else if b == 10 {
        seq![92u8, 110u8]
    } else if b == 12 {
        seq![92u8, 102u8]
    } else if b == 13 {
        seq![92u8, 114u8]
    } else if b < 32 {
        seq![92u8, 117u8, 48u8, 48u8, json_hex_digit(b / 16), json_hex_digit(b % 16)]
    } else {
        seq![b]
    }
}

/// A lowercase hexadecimal digit.
pub open spec fn json_hex_digit(v: u8) -> u8 {
    if v < 10 {
        (48 + v) as u8
    } else {
        (87 + v) as u8
    }
}

/// The JSON escaping of the bytes of `s` from position `i` on.
pub open spec fn json_escaped_from(s: Seq<u8>, i: int) -> Seq<u8>
    decreases s.len() - i,
{
    if i < 0 || i >= s.len() {
        Seq::empty()
    } else {
        json_escape_byte(s[i]) + json_escaped_from(s, i + 1)
    }
}

/// The JSON record of an owned expression.
pub open spec fn json_of_expr(e: Expr) -> Seq<u8>
    decreases e, 0int,
{
    match e {
        Expr::Assign(a) => lit_assign_open_bytes() + json_of_expr(*a.value) + lit_close_brace_bytes(),
        Expr::Bin(b) => lit_bin_open_bytes() + spec_bin_op_symbol(b.op) + lit_op_left_bytes() + json_of_expr(
            *b.left,
        ) + lit_right_bytes() + json_of_expr(*b.right) + lit_close_brace_bytes(),
        Expr::Error(_) => lit_error_expr_bytes(),
        Expr::Logical(l) => lit_logical_open_bytes() + spec_logical_op_symbol(l.op) + lit_op_left_bytes()
            + json_of_expr(*l.left) + lit_right_bytes() + json_of_expr(*l.right) + lit_close_brace_bytes(),
        Expr::Sequence(q) => lit_seq_open_bytes() + json_of_exprs_from(q.exprs@, 0) + lit_close_list_bytes(),
        Expr::StrLit(s) => lit_str_open_bytes() + json_escaped_from(s.value@, 0) + lit_close_str_bytes(),
    }
}

/// The comma-separated JSON records of the expressions of `v` from
/// position `i` on.
pub open spec fn json_of_exprs_from(v: Seq<Expr>, i: int) -> Seq<u8>
    decreases v, v.len() - i,
{
    if i < 0 || i >= v.len() {
        Seq::empty()
    } else {
        json_of_expr(v[i]) + (if i + 1 < v.len() {
            seq![44u8]
        } else {
            Seq::<u8>::empty()
        }) + json_of_exprs_from(v, i + 1)
    }
}

/// The JSON record of an owned statement.
pub open spec fn json_of_stmt(s: Stmt) -> Seq<u8>
    decreases s, 0int,
{
    match s {
        Stmt::Break(_) => lit_break_stmt_bytes(),
        Stmt::Error(_) => lit_error_stmt_bytes(),
        Stmt::Expr(e) => lit_expr_stmt_open_bytes() + json_of_expr(*e.expr) + lit_close_brace_bytes(),
        Stmt::Trace(t) => lit_trace_stmt_open_bytes() + json_of_expr(*t.value) + lit_close_brace_bytes(),
    }
}

/// The comma-separated JSON records of the statements of `v` from
/// position `i` on.
pub open spec fn json_of_stmts_from(v: Seq<Stmt>, i: int) -> Seq<u8>
    decreases v, v.len() - i,
{
    if i < 0 || i >= v.len() {
        Seq::empty()
    } else {
        json_of_stmt(v[i]) + (if i + 1 < v.len() {
            seq![44u8]
        } else {
            Seq::<u8>::empty()
        }) + json_of_stmts_from(v, i + 1)
    }
}

/// The JSON record of an owned script: its statement list under the
/// `"body"` field.
pub open spec fn json_of_script(s: Script) -> Seq<u8> {
    lit_script_open_bytes() + json_of_stmts_from(s.stmts@, 0) + lit_close_list_bytes()
}

/// The bytes of `{\"type\":\"AssignExpr\",\"value\":`.
pub open spec fn lit_assign_open_bytes() -> Seq<u8> {
    seq![123u8, 34u8, 116u8, 121u8, 112u8, 101u8, 34u8, 58u8, 34u8, 65u8, 115u8, 115u8, 105u8, 103u8, 110u8, 69u8, 120u8, 112u8, 114u8, 34u8, 44u8, 34u8, 118u8, 97u8, 108u8, 117u8, 101u8, 34u8, 58u8]
}

/// The bytes of `{\"type\":\"BinExpr\",\"op\":\"`.
pub open spec fn lit_bin_open_bytes() -> Seq<u8> {
    seq![123u8, 34u8, 116u8, 121u8, 112u8, 101u8, 34u8, 58u8, 34u8, 66u8, 105u8, 110u8, 69u8, 120u8, 112u8, 114u8, 34u8, 44u8, 34u8, 111u8, 112u8, 34u8, 58u8, 34u8]
}

/// The bytes of `\",\"left\":`.
pub open spec fn lit_op_left_bytes() -> Seq<u8> {
    seq![34u8, 44u8, 34u8, 108u8, 101u8, 102u8, 116u8, 34u8, 58u8]
}

/// The bytes of `,\"right\":`.
pub open spec fn lit_right_bytes() -> Seq<u8> {
    seq![44u8, 34u8, 114u8, 105u8, 103u8, 104u8, 116u8, 34u8, 58u8]
}

/// The bytes of `}`.
pub open spec fn lit_close_brace_bytes() -> Seq<u8> {
    seq![125u8]
}

/// The bytes of `{\"type\":\"ErrorExpr\"}`.
pub open spec fn lit_error_expr_bytes() -> Seq<u8> {
    seq![123u8, 34u8, 116u8, 121u8, 112u8, 101u8, 34u8, 58u8, 34u8, 69u8, 114u8, 114u8, 111u8, 114u8, 69u8, 120u8, 112u8, 114u8, 34u8, 125u8]
}

/// The bytes of `{\"type\":\"LogicalExpr\",\"op\":\"`.
pub open spec fn lit_logical_open_bytes() -> Seq<u8> {
    seq![123u8, 34u8, 116u8, 121u8, 112u8, 101u8, 34u8, 58u8, 34u8, 76u8, 111u8, 103u8, 105u8, 99u8, 97u8, 108u8, 69u8, 120u8, 112u8, 114u8, 34u8, 44u8, 34u8, 111u8, 112u8, 34u8, 58u8, 34u8]
}

/// The bytes of `{\"type\":\"SeqExpr\",\"exprs\":[`.
pub open spec fn lit_seq_open_bytes() -> Seq<u8> {
    seq![123u8, 34u8, 116u8, 121u8, 112u8, 101u8, 34u8, 58u8, 34u8, 83u8, 101u8, 113u8, 69u8, 120u8, 112u8, 114u8, 34u8, 44u8, 34u8, 101u8, 120u8, 112u8, 114u8, 115u8, 34u8, 58u8, 91u8]
}

/// The bytes of `]}`.
pub open spec fn lit_close_list_bytes() -> Seq<u8> {
    seq![93u8, 125u8]
}

/// The bytes of `{\"type\":\"StrLit\",\"value\":\"`.
pub open spec fn lit_str_open_bytes() -> Seq<u8> {
    seq![123u8, 34u8, 116u8, 121u8, 112u8, 101u8, 34u8, 58u8, 34u8, 83u8, 116u8, 114u8, 76u8, 105u8, 116u8, 34u8, 44u8, 34u8, 118u8, 97u8, 108u8, 117u8, 101u8, 34u8, 58u8, 34u8]
}

/// The bytes of `\"}`.
pub open spec fn lit_close_str_bytes() -> Seq<u8> {
    seq![34u8, 125u8]
}

/// The bytes of `{\"type\":\"BreakStmt\"}`.
pub open spec fn lit_break_stmt_bytes() -> Seq<u8> {
    seq![123u8, 34u8, 116u8, 121u8, 112u8, 101u8, 34u8, 58u8, 34u8, 66u8, 114u8, 101u8, 97u8, 107u8, 83u8, 116u8, 109u8, 116u8, 34u8, 125u8]
}

/// The bytes of `{\"type\":\"ErrorStmt\"}`.
pub open spec fn lit_error_stmt_bytes() -> Seq<u8> {
    seq![123u8, 34u8, 116u8, 121u8, 112u8, 101u8, 34u8, 58u8, 34u8, 69u8, 114u8, 114u8, 111u8, 114u8, 83u8, 116u8, 109u8, 116u8, 34u8, 125u8]
}

/// The bytes of `{\"type\":\"ExprStmt\",\"expr\":`.
pub open spec fn lit_expr_stmt_open_bytes() -> Seq<u8> {
    seq![123u8, 34u8, 116u8, 121u8, 112u8, 101u8, 34u8, 58u8, 34u8, 69u8, 120u8, 112u8, 114u8, 83u8, 116u8, 109u8, 116u8, 34u8, 44u8, 34u8, 101u8, 120u8, 112u8, 114u8, 34u8, 58u8]
}

/// The bytes of `{\"type\":\"TraceStmt\",\"value\":`.
pub open spec fn lit_trace_stmt_open_bytes() -> Seq<u8> {
    seq![123u8, 34u8, 116u8, 121u8, 112u8, 101u8, 34u8, 58u8, 34u8, 84u8, 114u8, 97u8, 99u8, 101u8, 83u8, 116u8, 109u8, 116u8, 34u8, 44u8, 34u8, 118u8, 97u8, 108u8, 117u8, 101u8, 34u8, 58u8]
}

/// The bytes of `{\"body\":[`.
pub open spec fn lit_script_open_bytes() -> Seq<u8> {
    seq![123u8, 34u8, 98u8, 111u8, 100u8, 121u8, 34u8, 58u8, 91u8]
}


/// The JSON record of an owned variable declaration.
pub open spec fn json_of_var_decl(d: VarDecl) -> Seq<u8> {
    lit_var_decl_bytes()
}

/// The comma-separated JSON records of the declarations of `v` from
/// position `i` on.
pub open spec fn json_of_var_decls_from(v: Seq<VarDecl>, i: int) -> Seq<u8>
    decreases v.len() - i,
{
    if i < 0 || i >= v.len() {
        Seq::empty()
    } else {
        json_of_var_decl(v[i]) + (if i + 1 < v.len() {
            seq![44u8]
        } else {
            Seq::<u8>::empty()
        }) + json_of_var_decls_from(v, i + 1)
    }
}

/// The JSON record of an owned variable statement: its declaration list
/// under the `"decls"` field.
pub open spec fn json_of_var_stmt(s: VarStmt) -> Seq<u8> {
    lit_var_stmt_open_bytes() + json_of_var_decls_from(s.decls@, 0) + lit_close_list_bytes()
}

/// The bytes of `{\"type\":\"VarDecl\"}`.
pub open spec fn lit_var_decl_bytes() -> Seq<u8> {
    seq![123u8, 34u8, 116u8, 121u8, 112u8, 101u8, 34u8, 58u8, 34u8, 86u8, 97u8, 114u8, 68u8, 101u8, 99u8, 108u8, 34u8, 125u8]
}

/// The bytes of `{\"type\":\"VarStmt\",\"decls\":[`.
pub open spec fn lit_var_stmt_open_bytes() -> Seq<u8> {
    seq![123u8, 34u8, 116u8, 121u8, 112u8, 101u8, 34u8, 58u8, 34u8, 86u8, 97u8, 114u8, 83u8, 116u8, 109u8, 116u8, 34u8, 44u8, 34u8, 100u8, 101u8, 99u8, 108u8, 115u8, 34u8, 58u8, 91u8]
}

/// Appends the JSON escaping of `s` to `out`.
#[verifier::loop_isolation(false)]
fn write_escaped(out: &mut Vec<u8>, s: &Vec<u8>)
    ensures
        final(out)@ == old(out)@ + json_escaped_from(s@, 0),
{
    let ghost base = out@;
    let mut j: usize = 0;
    while j < s.len()
        invariant
            j <= s@.len(),
            out@ + json_escaped_from(s@, j as int) == base + json_escaped_from(s@, 0),
        decreases s@.len() - j,
    {
        let b = s[j];
        let ghost before = out@;
        if b == 34 {
            out.push(92);
            out.push(34);
        } else if b == 92 {
            out.push(92);
            out.push(92);
        } else if b == 8 {
            out.push(92);
            out.push(98);
        } else if b == 9 {
            out.push(92);
            out.push(116);
        } else if b == 10 {
            out.push(92);
            out.push(110);
        } else if b == 12 {
            out.push(92);
            out.push(102);
        } else if b == 13 {
            out.push(92);
            out.push(114);
        } else if b < 32 {
            out.push(92);
            out.push(117);
            out.push(48);
            out.push(48);
            let hi = b / 16;
            let lo = b % 16;
            out.push(if hi < 10 { 48 + hi } else { 87 + hi });
            out.push(if lo < 10 { 48 + lo } else { 87 + lo });
        } else {
            out.push(b);
        }
        proof {
            assert(out@ =~= before + json_escape_byte(s@[j as int]));
            assert(before + (json_escape_byte(s@[j as int]) + json_escaped_from(s@, j as int + 1))
                =~= (before + json_escape_byte(s@[j as int])) + json_escaped_from(s@, j as int + 1));
        }
        j = j + 1;
    }
    proof {
        assert(out@ + json_escaped_from(s@, j as int) =~= out@);
    }
}

/// Appends one fixed fragment of the wire format.
fn push_assign_open(out: &mut Vec<u8>)
    ensures
        final(out)@ == old(out)@ + lit_assign_open_bytes(),
{
    out.push(123);
    out.push(34);
    out.push(116);
    out.push(121);
    out.push(112);
    out.push(101);
    out.push(34);
    out.push(58);
    out.push(34);
    out.push(65);
    out.push(115);
    out.push(115);
    out.push(105);
    out.push(103);
    out.push(110);
    out.push(69);
    out.push(120);
    out.push(112);
    out.push(114);
    out.push(34);
    out.push(44);
    out.push(34);
    out.push(118);
    out.push(97);
    out.push(108);
    out.push(117);
    out.push(101);
    out.push(34);
    out.push(58);
    proof {
        assert(out@ =~= old(out)@ + lit_assign_open_bytes());
    }
}

fn push_bin_open(out: &mut Vec<u8>)
    ensures
        final(out)@ == old(out)@ + lit_bin_open_bytes(),
{
    out.push(123);
    out.push(34);
    out.push(116);
    out.push(121);
    out.push(112);
    out.push(101);
    out.push(34);
    out.push(58);
    out.push(34);
    out.push(66);
    out.push(105);
    out.push(110);
    out.push(69);
    out.push(120);
    out.push(112);
    out.push(114);
    out.push(34);
    out.push(44);
    out.push(34);
    out.push(111);
    out.push(112);
    out.push(34);
    out.push(58);
    out.push(34);
    proof {
        assert(out@ =~= old(out)@ + lit_bin_open_bytes());
    }
}

fn push_op_left(out: &mut Vec<u8>)
    ensures
        final(out)@ == old(out)@ + lit_op_left_bytes(),
{
    out.push(34);
    out.push(44);
    out.push(34);
    out.push(108);
    out.push(101);
    out.push(102);
    out.push(116);
    out.push(34);
    out.push(58);
    proof {
        assert(out@ =~= old(out)@ + lit_op_left_bytes());
    }
}

fn push_right(out: &mut Vec<u8>)
    ensures
        final(out)@ == old(out)@ + lit_right_bytes(),
{
    out.push(44);
    out.push(34);
    out.push(114);
    out.push(105);
    out.push(103);
    out.push(104);
    out.push(116);
    out.push(34);
    out.push(58);
    proof {
        assert(out@ =~= old(out)@ + lit_right_bytes());
    }
}

fn push_close_brace(out: &mut Vec<u8>)
    ensures
        final(out)@ == old(out)@ + lit_close_brace_bytes(),
{
    out.push(125);
    proof {
        assert(out@ =~= old(out)@ + lit_close_brace_bytes());
    }
}

fn push_error_expr(out: &mut Vec<u8>)
    ensures
        final(out)@ == old(out)@ + lit_error_expr_bytes(),
{
    out.push(123);
    out.push(34);
    out.push(116);
    out.push(121);
    out.push(112);
    out.push(101);
    out.push(34);
    out.push(58);
    out.push(34);
    out.push(69);
    out.push(114);
    out.push(114);
    out.push(111);
    out.push(114);
    out.push(69);
    out.push(120);
    out.push(112);
    out.push(114);
    out.push(34);
    out.push(125);
    proof {
        assert(out@ =~= old(out)@ + lit_error_expr_bytes());
    }
}

fn push_logical_open(out: &mut Vec<u8>)
    ensures
        final(out)@ == old(out)@ + lit_logical_open_bytes(),
{
    out.push(123);
    out.push(34);
    out.push(116);
    out.push(121);
    out.push(112);
    out.push(101);
    out.push(34);
    out.push(58);
    out.push(34);
    out.push(76);
    out.push(111);
    out.push(103);
    out.push(105);
    out.push(99);
    out.push(97);
    out.push(108);
    out.push(69);
    out.push(120);
    out.push(112);
    out.push(114);
    out.push(34);
    out.push(44);
    out.push(34);
    out.push(111);
    out.push(112);
    out.push(34);
    out.push(58);
    out.push(34);
    proof {
        assert(out@ =~= old(out)@ + lit_logical_open_bytes());
    }
}

fn push_seq_open(out: &mut Vec<u8>)
    ensures
        final(out)@ == old(out)@ + lit_seq_open_bytes(),
{
    out.push(123);
    out.push(34);
    out.push(116);
    out.push(121);
    out.push(112);
    out.push(101);
    out.push(34);
    out.push(58);
    out.push(34);
    out.push(83);
    out.push(101);
    out.push(113);
    out.push(69);
    out.push(120);
    out.push(112);
    out.push(114);
    out.push(34);
    out.push(44);
    out.push(34);
    out.push(101);
    out.push(120);
    out.push(112);
    out.push(114);
    out.push(115);
    out.push(34);
    out.push(58);
    out.push(91);
    proof {
        assert(out@ =~= old(out)@ + lit_seq_open_bytes());
    }
}

fn push_close_list(out: &mut Vec<u8>)
    ensures
        final(out)@ == old(out)@ + lit_close_list_bytes(),
{
    out.push(93);
    out.push(125);
    proof {
        assert(out@ =~= old(out)@ + lit_close_list_bytes());
    }
}

fn push_str_open(out: &mut Vec<u8>)
    ensures
        final(out)@ == old(out)@ + lit_str_open_bytes(),
{
    out.push(123);
    out.push(34);
    out.push(116);
    out.push(121);
    out.push(112);
    out.push(101);
    out.push(34);
    out.push(58);
    out.push(34);
    out.push(83);
    out.push(116);
    out.push(114);
    out.push(76);
    out.push(105);
    out.push(116);
    out.push(34);
    out.push(44);
    out.push(34);
    out.push(118);
    out.push(97);
    out.push(108);
    out.push(117);
    out.push(101);
    out.push(34);
    out.push(58);
    out.push(34);
    proof {
        assert(out@ =~= old(out)@ + lit_str_open_bytes());
    }
}

fn push_close_str(out: &mut Vec<u8>)
    ensures
        final(out)@ == old(out)@ + lit_close_str_bytes(),
{
    out.push(34);
    out.push(125);
    proof {
        assert(out@ =~= old(out)@ + lit_close_str_bytes());
    }
}

fn push_break_stmt(out: &mut Vec<u8>)
    ensures
        final(out)@ == old(out)@ + lit_break_stmt_bytes(),
{
    out.push(123);
    out.push(34);
    out.push(116);
    out.push(121);
    out.push(112);
    out.push(101);
    out.push(34);
    out.push(58);
    out.push(34);
    out.push(66);
    out.push(114);
    out.push(101);
    out.push(97);
    out.push(107);
    out.push(83);
    out.push(116);
    out.push(109);
    out.push(116);
    out.push(34);
    out.push(125);
    proof {
        assert(out@ =~= old(out)@ + lit_break_stmt_bytes());
    }
}

fn push_error_stmt(out: &mut Vec<u8>)
    ensures
        final(out)@ == old(out)@ + lit_error_stmt_bytes(),
{
    out.push(123);
    out.push(34);
    out.push(116);
    out.push(121);
    out.push(112);
    out.push(101);
    out.push(34);
    out.push(58);
    out.push(34);
    out.push(69);
    out.push(114);
    out.push(114);
    out.push(111);
    out.push(114);
    out.push(83);
    out.push(116);
    out.push(109);
    out.push(116);
    out.push(34);
    out.push(125);
    proof {
        assert(out@ =~= old(out)@ + lit_error_stmt_bytes());
    }
}

fn push_expr_stmt_open(out: &mut Vec<u8>)
    ensures
        final(out)@ == old(out)@ + lit_expr_stmt_open_bytes(),
{
    out.push(123);
    out.push(34);
    out.push(116);
    out.push(121);
    out.push(112);
    out.push(101);
    out.push(34);
    out.push(58);
    out.push(34);
    out.push(69);
    out.push(120);
    out.push(112);
    out.push(114);
    out.push(83);
    out.push(116);
    out.push(109);
    out.push(116);
    out.push(34);
    out.push(44);
    out.push(34);
    out.push(101);
    out.push(120);
    out.push(112);
    out.push(114);
    out.push(34);
    out.push(58);
    proof {
        assert(out@ =~= old(out)@ + lit_expr_stmt_open_bytes());
    }
}

fn push_trace_stmt_open(out: &mut Vec<u8>)
    ensures
        final(out)@ == old(out)@ + lit_trace_stmt_open_bytes(),
{
    out.push(123);
    out.push(34);
    out.push(116);
    out.push(121);
    out.push(112);
    out.push(101);
    out.push(34);
    out.push(58);
    out.push(34);
    out.push(84);
    out.push(114);
    out.push(97);
    out.push(99);
    out.push(101);
    out.push(83);
    out.push(116);
    out.push(109);
    out.push(116);
    out.push(34);
    out.push(44);
    out.push(34);
    out.push(118);
    out.push(97);
    out.push(108);
    out.push(117);
    out.push(101);
    out.push(34);
    out.push(58);
    proof {
        assert(out@ =~= old(out)@ + lit_trace_stmt_open_bytes());
    }
}

fn push_script_open(out: &mut Vec<u8>)
    ensures
        final(out)@ == old(out)@ + lit_script_open_bytes(),
{
    out.push(123);
    out.push(34);
    out.push(98);
    out.push(111);
    out.push(100);
    out.push(121);
    out.push(34);
    out.push(58);
    out.push(91);
    proof {
        assert(out@ =~= old(out)@ + lit_script_open_bytes());
    }
}

/// Appends the JSON record of an expression to `out`.
#[verifier::rlimit(30)]
pub fn write_expr(out: &mut Vec<u8>, e: &Expr)
    ensures
        final(out)@ == old(out)@ + json_of_expr(*e),
    decreases *e, 0int,
{
    let ghost base = out@;
    match e {
        Expr::Assign(a) => {
            push_assign_open(out);
            write_expr(out, &*a.value);
            push_close_brace(out);
            proof {
                assert(out@ =~= base + json_of_expr(*e));
            }
        },
        Expr::Bin(b) => {
            push_bin_open(out);
            let mut sym = bin_op_symbol(b.op);
            out.append(&mut sym);
            push_op_left(out);
            write_expr(out, &*b.left);
            push_right(out);
            write_expr(out, &*b.right);
            push_close_brace(out);
            proof {
                assert(out@ =~= base + json_of_expr(*e));
            }
        },
        Expr::Error(_) => {
            push_error_expr(out);
            proof {
                assert(out@ =~= base + json_of_expr(*e));
            }
        },
        Expr::Logical(l) => {
            push_logical_open(out);
            let mut sym = logical_op_symbol(l.op);
            out.append(&mut sym);
            push_op_left(out);
            write_expr(out, &*l.left);
            push_right(out);
            write_expr(out, &*l.right);
            push_close_brace(out);
            proof {
                assert(out@ =~= base + json_of_expr(*e));
            }
        },
        Expr::Sequence(q) => {
            push_seq_open(out);
            write_exprs(out, &q.exprs);
            push_close_list(out);
            proof {
                assert(out@ =~= base + json_of_expr(*e));
            }
        },
        Expr::StrLit(s) => {
            push_str_open(out);
            write_escaped(out, &s.value);
            push_close_str(out);
            proof {
                assert(out@ =~= base + json_of_expr(*e));
            }
        },
    }
}

/// Appends the comma-separated JSON records of the expressions of `v` to
/// `out`.
#[verifier::loop_isolation(false)]
pub fn write_exprs(out: &mut Vec<u8>, v: &Vec<Expr>)
    ensures
        final(out)@ == old(out)@ + json_of_exprs_from(v@, 0),
    decreases v@, 0int,
{
    let ghost base = out@;
    let mut j: usize = 0;
    while j < v.len()
        invariant
            j <= v@.len(),
            out@ + json_of_exprs_from(v@, j as int) == base + json_of_exprs_from(v@, 0),
        decreases v@.len() - j,
    {
        let ghost before = out@;
        write_expr(out, &v[j]);
        if j + 1 < v.len() {
            out.push(44);
        }
        proof {
            let piece = json_of_expr(v@[j as int]) + (if j as int + 1 < v@.len() {
                seq![44u8]
            } else {
                Seq::<u8>::empty()
            });
            assert(out@ =~= before + piece);
            assert(before + (piece + json_of_exprs_from(v@, j as int + 1)) =~= (before + piece)
                + json_of_exprs_from(v@, j as int + 1));
        }
        j = j + 1;
    }
    proof {
        assert(out@ + json_of_exprs_from(v@, j as int) =~= out@);
    }
}

/// Appends the JSON record of a statement to `out`.
#[verifier::rlimit(30)]
pub fn write_stmt(out: &mut Vec<u8>, s: &Stmt)
    ensures
        final(out)@ == old(out)@ + json_of_stmt(*s),
    decreases *s, 0int,
{
    let ghost base = out@;
    match s {
        Stmt::Break(_) => {
            push_break_stmt(out);
            proof {
                assert(out@ =~= base + json_of_stmt(*s));
            }
        },
        Stmt::Error(_) => {
            push_error_stmt(out);
            proof {
                assert(out@ =~= base + json_of_stmt(*s));
            }
        },
        Stmt::Expr(e) => {
            push_expr_stmt_open(out);
            write_expr(out, &*e.expr);
            push_close_brace(out);
            proof {
                assert(out@ =~= base + json_of_stmt(*s));
            }
        },
        Stmt::Trace(t) => {
            push_trace_stmt_open(out);
            write_expr(out, &*t.value);
            push_close_brace(out);
            proof {
                assert(out@ =~= base + json_of_stmt(*s));
            }
        },
    }
}

/// Appends the comma-separated JSON records of the statements of `v` to
/// `out`.
#[verifier::loop_isolation(false)]
pub fn write_stmts(out: &mut Vec<u8>, v: &Vec<Stmt>)
    ensures
        final(out)@ == old(out)@ + json_of_stmts_from(v@, 0),
    decreases v@, 0int,
{
    let ghost base = out@;
    let mut j: usize = 0;
    while j < v.len()
        invariant
            j <= v@.len(),
            out@ + json_of_stmts_from(v@, j as int) == base + json_of_stmts_from(v@, 0),
        decreases v@.len() - j,
    {
        let ghost before = out@;
        write_stmt(out, &v[j]);
        if j + 1 < v.len() {
            out.push(44);
        }
        proof {
            let piece = json_of_stmt(v@[j as int]) + (if j as int + 1 < v@.len() {
                seq![44u8]
            } else {
                Seq::<u8>::empty()
            });
            assert(out@ =~= before + piece);
            assert(before + (piece + json_of_stmts_from(v@, j as int + 1)) =~= (before + piece)
                + json_of_stmts_from(v@, j as int + 1));
        }
        j = j + 1;
    }
    proof {
        assert(out@ + json_of_stmts_from(v@, j as int) =~= out@);
    }
}

fn push_var_decl(out: &mut Vec<u8>)
    ensures
        final(out)@ == old(out)@ + lit_var_decl_bytes(),
{
    out.push(123);
    out.push(34);
    out.push(116);
    out.push(121);
    out.push(112);
    out.push(101);
    out.push(34);
    out.push(58);
    out.push(34);
    out.push(86);
    out.push(97);
    out.push(114);
    out.push(68);
    out.push(101);
    out.push(99);
    out.push(108);
    out.push(34);
    out.push(125);
    proof {
        assert(out@ =~= old(out)@ + lit_var_decl_bytes());
    }
}

fn push_var_stmt_open(out: &mut Vec<u8>)
    ensures
        final(out)@ == old(out)@ + lit_var_stmt_open_bytes(),
{
    out.push(123);
    out.push(34);
    out.push(116);
    out.push(121);
    out.push(112);
    out.push(101);
    out.push(34);
    out.push(58);
    out.push(34);
    out.push(86);
    out.push(97);
    out.push(114);
    out.push(83);
    out.push(116);
    out.push(109);
    out.push(116);
    out.push(34);
    out.push(44);
    out.push(34);
    out.push(100);
    out.push(101);
    out.push(99);
    out.push(108);
    out.push(115);
    out.push(34);
    out.push(58);
    out.push(91);
    proof {
        assert(out@ =~= old(out)@ + lit_var_stmt_open_bytes());
    }
}

/// Appends the comma-separated JSON records of the declarations of `v` to
/// `out`.
#[verifier::loop_isolation(false)]
fn write_var_decls(out: &mut Vec<u8>, v: &Vec<VarDecl>)
    ensures
        final(out)@ == old(out)@ + json_of_var_decls_from(v@, 0),
{
    let ghost base = out@;
    let mut j: usize = 0;
    while j < v.len()
        invariant
            j <= v@.len(),
            out@ + json_of_var_decls_from(v@, j as int) == base + json_of_var_decls_from(v@, 0),
        decreases v@.len() - j,
    {
        let ghost before = out@;
        push_var_decl(out);
        if j + 1 < v.len() {
            out.push(44);
        }
        proof {
            let piece = json_of_var_decl(v@[j as int]) + (if j as int + 1 < v@.len() {
                seq![44u8]
            } else {
                Seq::<u8>::empty()
            });
            assert(out@ =~= before + piece);
            assert(before + (piece + json_of_var_decls_from(v@, j as int + 1)) =~= (before + piece)
                + json_of_var_decls_from(v@, j as int + 1));
        }
        j = j + 1;
    }
    proof {
        assert(out@ + json_of_var_decls_from(v@, j as int) =~= out@);
    }
}

/// The JSON record of a variable statement, as bytes: its declaration list
/// under the `"decls"` field.
pub fn var_stmt_to_json(s: &VarStmt) -> (r: Vec<u8>)
    ensures
        r@ == json_of_var_stmt(*s),
{
    let mut out: Vec<u8> = Vec::new();
    push_var_stmt_open(&mut out);
    write_var_decls(&mut out, &s.decls);
    push_close_list(&mut out);
    proof {
        assert(out@ =~= json_of_var_stmt(*s));
    }
    out
}

/// The JSON record of a whole script, as bytes: its statement list under
/// the `"body"` field.
pub fn script_to_json(s: &Script) -> (r: Vec<u8>)
    ensures
        r@ == json_of_script(*s),
{
    let mut out: Vec<u8> = Vec::new();
    push_script_open(&mut out);
    write_stmts(&mut out, &s.stmts);
    push_close_list(&mut out);
    proof {
        assert(out@ =~= json_of_script(*s));
    }
    out
}

/// The JSON record of a single statement, as bytes.
pub fn stmt_to_json(s: &Stmt) -> (r: Vec<u8>)
    ensures
        r@ == json_of_stmt(*s),
{
    let mut out: Vec<u8> = Vec::new();
    write_stmt(&mut out, s);
    proof {
        assert(out@ =~= json_of_stmt(*s));
    }
    out
}

/// The JSON record of a single expression, as bytes.
pub fn expr_to_json(e: &Expr) -> (r: Vec<u8>)
    ensures
        r@ == json_of_expr(*e),
{
    let mut out: Vec<u8> = Vec::new();
    write_expr(&mut out, e);
    proof {
        assert(out@ =~= json_of_expr(*e));
    }
    out
}

} // verus!
