//! Statement, type and declaration parsing, each function proved equal to
//! its counterpart in `grammar`.

use vstd::prelude::*;
use crate::ast::{ArgV, Assignment, EmptyType, Expression, FloatType, FnArg, FnDecl, IntegerType,
    Local, Pointer, Stmt, StmtV, arg_view, args_view, assign_view, decl_view, expr_view,
    lemma_stmts_view_len, local_view, stmt_view, stmts_view};
use crate::errors::{ParseErrV, ParseError, parse_err_view};
use crate::parser::expressions::{expression, func_call};
use crate::parser::grammar::{TyRes, sp_args, sp_args_more, sp_arg_type, sp_assign_type,
    sp_assignment, sp_flat_type, sp_function, sp_if_stmt, sp_one_arg, sp_reassign, sp_ret_type,
    sp_return, sp_semi, sp_stmt, sp_stmt_list};
use crate::parser::helpers::{identifier, identifier_to_obj, mutable_qualifier, tag_lit, ws_skip};

verus! {

/// A flat type name.
pub(crate) fn flat_type(s: &str, pos: usize) -> (r: Option<(usize, EmptyType)>)
    requires
        pos as int <= s@.len(),
    ensures
        match r {
            Some((p, ty)) => {
                &&& sp_flat_type(s@, pos as int) == Some((p as int, ty))
                &&& pos <= p
                &&& p as int <= s@.len()
            },
            None => sp_flat_type(s@, pos as int) is None,
        },
{
    match tag_lit(s, pos, "f32") {
        Some(j) => Some((j, EmptyType::Float(FloatType::F32))),
        None => match tag_lit(s, pos, "f64") {
            Some(j) => Some((j, EmptyType::Float(FloatType::F64))),
            None => match tag_lit(s, pos, "i32") {
                Some(j) => Some((j, EmptyType::Integer(IntegerType::I32))),
                None => match tag_lit(s, pos, "i64") {
                    Some(j) => Some((j, EmptyType::Integer(IntegerType::I64))),
                    None => match tag_lit(s, pos, "isize") {
                        Some(j) => Some((j, EmptyType::Integer(IntegerType::PointerSize))),
                        None => None,
                    },
                },
            },
        },
    }
}

/// A parameter or binding type: a flat type name, or `*` `[mut]` type.
pub fn arg_type(s: &str, pos: usize) -> (r: Option<(usize, EmptyType)>)
    requires
        pos as int <= s@.len(),
    ensures
        match r {
            Some((p, ty)) => {
                &&& sp_arg_type(s@, pos as int) == Some((p as int, ty))
                &&& pos <= p
                &&& p as int <= s@.len()
            },
            None => sp_arg_type(s@, pos as int) is None,
        },
    decreases s@.len() - pos,
{
    let n = s.unicode_len();
    match flat_type(s, pos) {
        Some(r) => Some(r),
        None => {
            let w1 = ws_skip(s, pos);
            if !(w1 < n && s.get_char(w1) == '*') {
                return None;
            }
            let w2 = ws_skip(s, w1 + 1);
            let (w3, m) = mutable_qualifier(s, w2);
            let w4 = ws_skip(s, w3);
            if pos < w4 {
                match arg_type(s, w4) {
                    Some((e, ty)) => Some(
                        (e, EmptyType::Pointer(Box::new(Pointer { ty, mutable: m }))),
                    ),
                    None => None,
                }
            } else {
                None
            }
        },
    }
}

/// The type of a `let` binding.
pub fn assign_type(s: &str, pos: usize) -> (r: Option<(usize, EmptyType)>)
    requires
        pos as int <= s@.len(),
    ensures
        match r {
            Some((p, ty)) => {
                &&& sp_assign_type(s@, pos as int) == Some((p as int, ty))
                &&& pos <= p
                &&& p as int <= s@.len()
            },
            None => sp_assign_type(s@, pos as int) is None,
        },
{
    arg_type(s, pos)
}

/// A return type: a flat type name. A pointer type is refused outright,
/// as returning a pointer is undefined behaviour in the source language.
pub fn ret_type(s: &str, pos: usize) -> (r: Result<Option<(usize, EmptyType)>, ParseError>)
    requires
        pos as int <= s@.len(),
    ensures
        match r {
            Ok(Some((p, ty))) => {
                &&& sp_ret_type(s@, pos as int) == TyRes::Found(p as int, ty)
                &&& pos <= p
                &&& p as int <= s@.len()
            },
            Ok(None) => sp_ret_type(s@, pos as int) is NoMatch,
            Err(e) => sp_ret_type(s@, pos as int) is PointerRejected && parse_err_view(e)
                == ParseErrV::PointerReturn,
        },
{
    let n = s.unicode_len();
    match flat_type(s, pos) {
        Some((p, ty)) => Ok(Some((p, ty))),
        None => {
            let w1 = ws_skip(s, pos);
            if !(w1 < n && s.get_char(w1) == '*') {
                return Ok(None);
            }
            let w2 = ws_skip(s, w1 + 1);
            let (w3, _m) = mutable_qualifier(s, w2);
            let w4 = ws_skip(s, w3);
            if pos < w4 {
                match arg_type(s, w4) {
                    Some(_) => Err(ParseError::PointerReturn),
                    None => Ok(None),
                }
            } else {
                Ok(None)
            }
        },
    }
}

/// Trailing `;` with surrounding whitespace.
fn semi(s: &str, pos: usize) -> (r: Option<usize>)
    requires
        pos as int <= s@.len(),
    ensures
        match r {
            Some(p) => {
                &&& sp_semi(s@, pos as int) == Some(p as int)
                &&& pos <= p
                &&& p as int <= s@.len()
            },
            None => sp_semi(s@, pos as int) is None,
        },
{
    let n = s.unicode_len();
    let w1 = ws_skip(s, pos);
    if w1 < n && s.get_char(w1) == ';' {
        Some(ws_skip(s, w1 + 1))
    } else {
        None
    }
}

/// Parse an assignment in the form `let [mut] name: type = value`.
pub fn assignment(s: &str, pos: usize) -> (r: Option<(usize, Assignment)>)
    requires
        pos as int <= s@.len(),
    ensures
        match r {
            Some((p, a)) => {
                &&& sp_assignment(s@, pos as int) == Some((p as int, assign_view(a)))
                &&& pos <= p
                &&& p as int <= s@.len()
            },
            None => sp_assignment(s@, pos as int) is None,
        },
{
    let n = s.unicode_len();
    let w1 = ws_skip(s, pos);
    let j = match tag_lit(s, w1, "let") {
        None => {
            return None;
        },
        Some(j) => j,
    };
    let w2 = ws_skip(s, j);
    let w3 = ws_skip(s, w2);
    let (w4, m) = mutable_qualifier(s, w3);
    let w5 = ws_skip(s, w4);
    let (p1, target) = match identifier_to_obj(s, w5) {
        None => {
            return None;
        },
        Some(x) => x,
    };
    let w6 = ws_skip(s, p1);
    if !(w6 < n && s.get_char(w6) == ':') {
        return None;
    }
    let w7 = ws_skip(s, w6 + 1);
    let (p3, ty) = match assign_type(s, w7) {
        None => {
            return None;
        },
        Some(x) => x,
    };
    let w8 = ws_skip(s, p3);
    if !(w8 < n && s.get_char(w8) == '=') {
        return None;
    }
    let w9 = ws_skip(s, w8 + 1);
    match expression(s, w9) {
        None => None,
        Some((p5, value)) => Some((p5, Assignment::new(target, ty, value, m))),
    }
}

/// Parse a re-assignment: an already defined variable is changed.
pub fn reassign(s: &str, pos: usize) -> (r: Option<(usize, Local)>)
    requires
        pos as int <= s@.len(),
    ensures
        match r {
            Some((p, l)) => {
                &&& sp_reassign(s@, pos as int) == Some((p as int, local_view(l)))
                &&& pos <= p
                &&& p as int <= s@.len()
            },
            None => sp_reassign(s@, pos as int) is None,
        },
{
    let n = s.unicode_len();
    let (p1, target) = match identifier_to_obj(s, pos) {
        None => {
            return None;
        },
        Some(x) => x,
    };
    let w1 = ws_skip(s, p1);
    if !(w1 < n && s.get_char(w1) == '=') {
        return None;
    }
    let w2 = ws_skip(s, w1 + 1);
    match expression(s, w2) {
        None => None,
        Some((p3, value)) => Some((p3, Local::new(target, value))),
    }
}

/// Parse `return` and its value expression.
pub fn return_(s: &str, pos: usize) -> (r: Option<(usize, Expression)>)
    requires
        pos as int <= s@.len(),
    ensures
        match r {
            Some((p, e)) => {
                &&& sp_return(s@, pos as int) == Some((p as int, expr_view(e)))
                &&& pos <= p
                &&& p as int <= s@.len()
            },
            None => sp_return(s@, pos as int) is None,
        },
{
    let w1 = ws_skip(s, pos);
    let j = match tag_lit(s, w1, "return") {
        None => {
            return None;
        },
        Some(j) => j,
    };
    let w2 = ws_skip(s, j);
    expression(s, w2)
}

/// `if expression { stmt* }`.
pub fn if_stmt(s: &str, pos: usize) -> (r: Option<(usize, (Expression, Vec<Stmt>))>)
    requires
        pos as int <= s@.len(),
    ensures
        match r {
            Some((p, cb)) => {
                &&& sp_if_stmt(s@, pos as int) matches Some((p2, cb2)) && p as int == p2
                    && cb2.0 == expr_view(cb.0) && cb2.1 == stmts_view(cb.1@)
                &&& pos <= p
                &&& p as int <= s@.len()
            },
            None => sp_if_stmt(s@, pos as int) is None,
        },
    decreases s@.len() - pos, 0int,
{
    let n = s.unicode_len();
    let j = match tag_lit(s, pos, "if") {
        None => {
            return None;
        },
        Some(j) => j,
    };
    let w1 = ws_skip(s, j);
    let (p1, cond) = match expression(s, w1) {
        None => {
            return None;
        },
        Some(x) => x,
    };
    let w2 = ws_skip(s, p1);
    let w3 = ws_skip(s, w2);
    if !(w3 < n && s.get_char(w3) == '{') {
        return None;
    }
    let w4 = ws_skip(s, w3 + 1);
    if !(pos < w4) {
        return None;
    }
    let (p3, body) = stmt_list(s, w4);
    let w5 = ws_skip(s, p3);
    if w5 < n && s.get_char(w5) == '}' {
        Some((ws_skip(s, w5 + 1), (cond, body)))
    } else {
        None
    }
}

/// One statement: an `if`, or a `return`, call, reassignment, or
/// declaration followed by `;`, tried in that order.
pub fn stmt(s: &str, pos: usize) -> (r: Option<(usize, Stmt)>)
    requires
        pos as int <= s@.len(),
    ensures
        match r {
            Some((p, st)) => {
                &&& sp_stmt(s@, pos as int) == Some((p as int, stmt_view(st)))
                &&& pos <= p
                &&& p as int <= s@.len()
            },
            None => sp_stmt(s@, pos as int) is None,
        },
    decreases s@.len() - pos, 1int,
{
    match if_stmt(s, pos) {
        Some((p, cb)) => {
            return Some((p, Stmt::If(cb.0, cb.1)));
        },
        None => {},
    }
    match return_(s, pos) {
        Some((p, e)) => {
            match semi(s, p) {
                Some(q) => {
                    return Some((q, Stmt::Return(e)));
                },
                None => {},
            }
        },
        None => {},
    }
    match func_call(s, pos) {
        Some((p, c)) => {
            match semi(s, p) {
                Some(q) => {
                    return Some((q, Stmt::Call(c)));
                },
                None => {},
            }
        },
        None => {},
    }
    match reassign(s, pos) {
        Some((p, l)) => {
            match semi(s, p) {
                Some(q) => {
                    return Some((q, Stmt::ReAssign(l)));
                },
                None => {},
            }
        },
        None => {},
    }
    match assignment(s, pos) {
        Some((p, a)) => {
            match semi(s, p) {
                Some(q) => {
                    return Some((q, Stmt::Assign(a)));
                },
                None => {},
            }
        },
        None => {},
    }
    None
}

/// Zero or more statements.
fn stmt_list(s: &str, pos: usize) -> (r: (usize, Vec<Stmt>))
    requires
        pos as int <= s@.len(),
    ensures
        sp_stmt_list(s@, pos as int) == (r.0 as int, stmts_view(r.1@)),
        pos <= r.0,
        r.0 as int <= s@.len(),
    decreases s@.len() - pos, 2int,
{
    match stmt(s, pos) {
        None => {
            let out: Vec<Stmt> = Vec::new();
            proof {
                assert(stmts_view(out@) =~= Seq::<StmtV>::empty());
            }
            (pos, out)
        },
        Some((p, st)) => {
            if pos < p {
                let (q, rest) = stmt_list(s, p);
                let mut out = rest;
                out.insert(0, st);
                proof {
                    lemma_stmts_view_len(out@);
                    lemma_stmts_view_len(rest@);
                    assert(stmts_view(out@) =~= seq![stmt_view(st)] + stmts_view(rest@));
                }
                (q, out)
            } else {
                let mut out: Vec<Stmt> = Vec::new();
                out.push(st);
                proof {
                    lemma_stmts_view_len(out@);
                    assert(stmts_view(out@) =~= seq![stmt_view(st)]);
                }
                (p, out)
            }
        },
    }
}

/// `name: type`.
fn one_arg(s: &str, pos: usize) -> (r: Option<(usize, FnArg)>)
    requires
        pos as int <= s@.len(),
    ensures
        match r {
            Some((p, a)) => {
                &&& sp_one_arg(s@, pos as int) == Some((p as int, arg_view(a)))
                &&& pos <= p
                &&& p as int <= s@.len()
            },
            None => sp_one_arg(s@, pos as int) is None,
        },
{
    let n = s.unicode_len();
    let (p1, name) = match identifier(s, pos) {
        None => {
            return None;
        },
        Some(x) => x,
    };
    let w1 = ws_skip(s, p1);
    if !(w1 < n && s.get_char(w1) == ':') {
        return None;
    }
    let w2 = ws_skip(s, w1 + 1);
    match arg_type(s, w2) {
        None => None,
        Some((p3, t)) => Some((p3, FnArg::new(name.to_owned(), t))),
    }
}

/// A possibly empty comma-separated parameter list, with an optional
/// trailing comma.
fn function_args(s: &str, pos: usize) -> (r: (usize, Vec<FnArg>))
    requires
        pos as int <= s@.len(),
    ensures
        sp_args(s@, pos as int) == (r.0 as int, args_view(r.1@)),
        pos <= r.0,
        r.0 as int <= s@.len(),
{
    let n = s.unicode_len();
    match one_arg(s, pos) {
        None => {
            let p: usize = if pos < n && s.get_char(pos) == ',' {
                pos + 1
            } else {
                pos
            };
            let out: Vec<FnArg> = Vec::new();
            proof {
                assert(args_view(out@) =~= Seq::<ArgV>::empty());
            }
            (p, out)
        },
        Some((p, a)) => {
            let (q, rest) = args_more(s, p);
            let q2: usize = if q < n && s.get_char(q) == ',' {
                q + 1
            } else {
                q
            };
            let mut out = rest;
            out.insert(0, a);
            proof {
                assert(args_view(out@) =~= seq![arg_view(a)] + args_view(out@.drop_first()));
                assert(out@.drop_first() =~= rest@);
            }
            (q2, out)
        },
    }
}

fn args_more(s: &str, pos: usize) -> (r: (usize, Vec<FnArg>))
    requires
        pos as int <= s@.len(),
    ensures
        sp_args_more(s@, pos as int) == (r.0 as int, args_view(r.1@)),
        pos <= r.0,
        r.0 as int <= s@.len(),
    decreases s@.len() - pos,
{
    let n = s.unicode_len();
    let w1 = ws_skip(s, pos);
    if !(w1 < n && s.get_char(w1) == ',') {
        let out: Vec<FnArg> = Vec::new();
        proof {
            assert(args_view(out@) =~= Seq::<ArgV>::empty());
        }
        return (pos, out);
    }
    let w2 = ws_skip(s, w1 + 1);
    match one_arg(s, w2) {
        None => {
            let out: Vec<FnArg> = Vec::new();
            proof {
                assert(args_view(out@) =~= Seq::<ArgV>::empty());
            }
            (pos, out)
        },
        Some((p, a)) => {
            if pos < p {
                let (q, rest) = args_more(s, p);
                let mut out = rest;
                out.insert(0, a);
                proof {
                    assert(args_view(out@) =~= seq![arg_view(a)] + args_view(out@.drop_first()));
                    assert(out@.drop_first() =~= rest@);
                }
                (q, out)
            } else {
                let mut out: Vec<FnArg> = Vec::new();
                out.push(a);
                proof {
                    assert(args_view(out@) =~= seq![arg_view(a)]);
                }
                (p, out)
            }
        },
    }
}

/// A function declaration: `fn name(args) -> type { stmt* }`. The return
/// type is mandatory, and may not be a pointer type.
pub fn function(s: &str, pos: usize) -> (r: Result<Option<(usize, FnDecl)>, ParseError>)
    requires
        pos as int <= s@.len(),
    ensures
        match r {
            Ok(Some((p, d))) => {
                &&& sp_function(s@, pos as int) == Ok::<Option<(int, crate::ast::FnDeclV)>, ParseErrV>(
                    Some((p as int, decl_view(d))),
                )
                &&& pos <= p
                &&& p as int <= s@.len()
            },
            Ok(None) => sp_function(s@, pos as int) == Ok::<
                Option<(int, crate::ast::FnDeclV)>,
                ParseErrV,
            >(None),
            Err(e) => sp_function(s@, pos as int) == Err::<
                Option<(int, crate::ast::FnDeclV)>,
                ParseErrV,
            >(parse_err_view(e)),
        },
{
    let n = s.unicode_len();
    let j = match tag_lit(s, pos, "fn") {
        None => {
            return Ok(None);
        },
        Some(j) => j,
    };
    if !(j < n) {
        return Ok(None);
    }
    let cs = s.get_char(j);
    if !(cs == ' ' || cs == '\t') {
        return Ok(None);
    }
    let k = fn_space_skip(s, j + 1);
    let (p1, name) = match identifier(s, k) {
        None => {
            return Ok(None);
        },
        Some(x) => x,
    };
    let w1 = ws_skip(s, p1);
    if !(w1 < n && s.get_char(w1) == '(') {
        return Ok(None);
    }
    let w2 = ws_skip(s, w1 + 1);
    let (p3, args) = function_args(s, w2);
    let w3 = ws_skip(s, p3);
    if !(w3 < n && s.get_char(w3) == ')') {
        return Ok(None);
    }
    let w4 = ws_skip(s, w3 + 1);
    let arrow = ws_skip(s, w4);
    let ret: Option<(usize, EmptyType)> = match tag_lit(s, arrow, "->") {
        None => None,
        Some(p5) => {
            let w5 = ws_skip(s, p5);
            match ret_type(s, w5) {
                Ok(Some((p6, ty))) => Some((p6, ty)),
                Ok(None) => None,
                Err(e) => {
                    return Err(e);
                },
            }
        },
    };
    let after_ret: usize = match &ret {
        Some((p6, _ty)) => *p6,
        None => w4,
    };
    let w6 = ws_skip(s, after_ret);
    if !(w6 < n && s.get_char(w6) == '{') {
        return Ok(None);
    }
    let w7 = ws_skip(s, w6 + 1);
    if !(pos < w7) {
        return Ok(None);
    }
    let (p8, body) = stmt_list(s, w7);
    let w8 = ws_skip(s, p8);
    if !(w8 < n && s.get_char(w8) == '}') {
        return Ok(None);
    }
    let p9 = w8 + 1;
    match ret {
        None => Err(ParseError::MissingReturnType { func: name.to_owned() }),
        Some((_p6, ty)) => {
            let end = ws_skip(s, p9);
            Ok(Some((end, FnDecl::new(name.to_owned(), args, ty, body))))
        },
    }
}

/// Skip spaces and tabs.
#[verifier::loop_isolation(false)]
fn fn_space_skip(s: &str, pos: usize) -> (r: usize)
    requires
        pos as int <= s@.len(),
    ensures
        r as int == crate::parser::grammar::sp_fn_space(s@, pos as int),
        pos <= r,
        r as int <= s@.len(),
{
    let n = s.unicode_len();
    let mut i: usize = pos;
    loop
        invariant
            pos <= i <= n,
            n == s@.len(),
            crate::parser::grammar::sp_fn_space(s@, pos as int) == crate::parser::grammar::sp_fn_space(
                s@,
                i as int,
            ),
        decreases n - i,
    {
        if i >= n {
            return i;
        }
        let c = s.get_char(i);
        if !(c == ' ' || c == '\t') {
            return i;
        }
        i = i + 1;
    }
}

} // verus!
