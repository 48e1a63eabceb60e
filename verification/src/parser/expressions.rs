//! Expression parsing: calls, references, dereferences, identifiers and
//! literals, each proved equal to its counterpart in `grammar`.

use vstd::prelude::*;
use crate::ast::{AddressOf, Call, ExprV, Expression, Name, call_view, expr_view, exprs_view,
    lemma_exprs_view_len};
use crate::parser::grammar::{sp_dereference, sp_expr_list, sp_expr_list_more, sp_expression,
    sp_func_call, sp_reference};
use crate::parser::helpers::{identifier, identifier_to_obj, mutable_qualifier, ws_skip};
use crate::parser::literals::literal;

verus! {

/// `&` or `&mut` applied to a named local.
pub fn reference(s: &str, pos: usize) -> (r: Option<(usize, AddressOf)>)
    requires
        pos as int <= s@.len(),
    ensures
        match r {
            Some((p, a)) => {
                &&& sp_reference(s@, pos as int) == Some((p as int, (a.name@, a.mutable)))
                &&& pos <= p
                &&& p as int <= s@.len()
            },
            None => sp_reference(s@, pos as int) is None,
        },
{
    let n = s.unicode_len();
    if pos >= n {
        return None;
    }
    if s.get_char(pos) != '&' {
        return None;
    }
    let w1 = ws_skip(s, pos + 1);
    let (w2, m) = mutable_qualifier(s, w1);
    let w3 = ws_skip(s, w2);
    match identifier(s, w3) {
        None => None,
        Some((e, name)) => Some((e, AddressOf { name: name.to_owned(), mutable: m })),
    }
}

/// `*` applied to a named local.
pub fn dereference(s: &str, pos: usize) -> (r: Option<(usize, Name)>)
    requires
        pos as int <= s@.len(),
    ensures
        match r {
            Some((p, name)) => {
                &&& sp_dereference(s@, pos as int) matches Some((p2, id)) && p as int == p2
                    && name.ident@ == id
                &&& pos <= p
                &&& p as int <= s@.len()
            },
            None => sp_dereference(s@, pos as int) is None,
        },
{
    let n = s.unicode_len();
    if pos >= n {
        return None;
    }
    if s.get_char(pos) != '*' {
        return None;
    }
    identifier_to_obj(s, pos + 1)
}

/// A call: identifier, `(`, comma-separated arguments with an optional
/// trailing comma, `)`.
pub fn func_call(s: &str, pos: usize) -> (r: Option<(usize, Call)>)
    requires
        pos as int <= s@.len(),
    ensures
        match r {
            Some((p, c)) => {
                &&& sp_func_call(s@, pos as int) == Some((p as int, call_view(c)))
                &&& pos <= p
                &&& p as int <= s@.len()
            },
            None => sp_func_call(s@, pos as int) is None,
        },
    decreases s@.len() - pos, 0int,
{
    let n = s.unicode_len();
    let (j, name) = match identifier(s, pos) {
        None => {
            return None;
        },
        Some(x) => x,
    };
    let w1 = ws_skip(s, j);
    if !(w1 < n && s.get_char(w1) == '(') {
        return None;
    }
    let w2 = ws_skip(s, w1 + 1);
    if !(pos < w2) {
        return None;
    }
    let (p1, args) = expr_list(s, w2);
    let p2: usize = if p1 < n && s.get_char(p1) == ',' {
        p1 + 1
    } else {
        p1
    };
    let w3 = ws_skip(s, p2);
    if w3 < n && s.get_char(w3) == ')' {
        let q = ws_skip(s, w3 + 1);
        Some((q, Call { func: name.to_owned(), args }))
    } else {
        None
    }
}

/// A possibly empty comma-separated expression list.
fn expr_list(s: &str, pos: usize) -> (r: (usize, Vec<Expression>))
    requires
        pos as int <= s@.len(),
    ensures
        sp_expr_list(s@, pos as int) == (r.0 as int, exprs_view(r.1@)),
        pos <= r.0,
        r.0 as int <= s@.len(),
    decreases s@.len() - pos, 2int,
{
    match expression(s, pos) {
        None => {
            let out: Vec<Expression> = Vec::new();
            proof {
                assert(exprs_view(out@) =~= Seq::<ExprV>::empty());
            }
            (pos, out)
        },
        Some((p, e)) => {
            if pos < p {
                let (q, rest) = expr_list_more(s, p);
                let mut out = rest;
                out.insert(0, e);
                proof {
                    lemma_exprs_view_len(out@);
                    lemma_exprs_view_len(rest@);
                    assert(exprs_view(out@) =~= seq![expr_view(e)] + exprs_view(rest@));
                }
                (q, out)
            } else {
                let mut out: Vec<Expression> = Vec::new();
                out.push(e);
                proof {
                    lemma_exprs_view_len(out@);
                    assert(exprs_view(out@) =~= seq![expr_view(e)]);
                }
                (p, out)
            }
        },
    }
}

fn expr_list_more(s: &str, pos: usize) -> (r: (usize, Vec<Expression>))
    requires
        pos as int <= s@.len(),
    ensures
        sp_expr_list_more(s@, pos as int) == (r.0 as int, exprs_view(r.1@)),
        pos <= r.0,
        r.0 as int <= s@.len(),
    decreases s@.len() - pos, 3int,
{
    let n = s.unicode_len();
    let w1 = ws_skip(s, pos);
    if !(w1 < n && s.get_char(w1) == ',') {
        let out: Vec<Expression> = Vec::new();
        proof {
            assert(exprs_view(out@) =~= Seq::<ExprV>::empty());
        }
        return (pos, out);
    }
    let w2 = ws_skip(s, w1 + 1);
    if !(pos < w2) {
        let out: Vec<Expression> = Vec::new();
        proof {
            assert(exprs_view(out@) =~= Seq::<ExprV>::empty());
        }
        return (pos, out);
    }
    match expression(s, w2) {
        None => {
            let out: Vec<Expression> = Vec::new();
            proof {
                assert(exprs_view(out@) =~= Seq::<ExprV>::empty());
            }
            (pos, out)
        },
        Some((p, e)) => {
            if w2 < p {
                let (q, rest) = expr_list_more(s, p);
                let mut out = rest;
                out.insert(0, e);
                proof {
                    lemma_exprs_view_len(out@);
                    lemma_exprs_view_len(rest@);
                    assert(exprs_view(out@) =~= seq![expr_view(e)] + exprs_view(rest@));
                }
                (q, out)
            } else {
                let mut out: Vec<Expression> = Vec::new();
                out.push(e);
                proof {
                    lemma_exprs_view_len(out@);
                    assert(exprs_view(out@) =~= seq![expr_view(e)]);
                }
                (p, out)
            }
        },
    }
}

/// An expression, with surrounding whitespace: a literal, a call, a
/// reference, a dereference, or an identifier, tried in that order.
pub fn expression(s: &str, pos: usize) -> (r: Option<(usize, Expression)>)
    requires
        pos as int <= s@.len(),
    ensures
        match r {
            Some((p, e)) => {
                &&& sp_expression(s@, pos as int) == Some((p as int, expr_view(e)))
                &&& pos <= p
                &&& p as int <= s@.len()
            },
            None => sp_expression(s@, pos as int) is None,
        },
    decreases s@.len() - pos, 1int,
{
    let a = ws_skip(s, pos);
    let inner: Option<(usize, Expression)> = match literal(s, a) {
        Some((p, l)) => Some((p, Expression::Literal(l))),
        None => match func_call(s, a) {
            Some((p, c)) => Some((p, Expression::Call(c))),
            None => match reference(s, a) {
                Some((p, ao)) => Some((p, Expression::AddressOf(ao))),
                None => match dereference(s, a) {
                    Some((p, nm)) => Some((p, Expression::DeRef(nm.ident))),
                    None => match identifier_to_obj(s, a) {
                        Some((p, nm)) => Some((p, Expression::Identifier(nm.ident))),
                        None => None,
                    },
                },
            },
        },
    };
    match inner {
        None => None,
        Some((p, e)) => Some((ws_skip(s, p), e)),
    }
}

} // verus!
