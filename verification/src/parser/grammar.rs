//! The grammar of the source language, written as deterministic spec-level
//! parsing functions over character sequences, with ordered alternatives
//! and maximal-munch lexemes. `parse` and every parsing function of the
//! executable parser are proved equal to these functions, so this file is
//! the single authority on which inputs the language accepts and which
//! trees they denote.

use vstd::prelude::*;
use crate::ast::{ArgV, AssignV, CallV, EmptyType, ExprV, FloatType, FnDeclV, IntegerType, LitV,
    LocalV, Pointer, StmtV};
use crate::errors::ParseErrV;

verus! {

// ---------------------------------------------------------------------------
// Character classes and primitive scanners.
// ---------------------------------------------------------------------------

/// Insignificant whitespace: space, tab, carriage return, line feed.
pub open spec fn is_multispace(c: char) -> bool {
    c == ' ' || c == '\t' || c == '\r' || c == '\n'
}

/// The whitespace that must separate `fn` from the function name: space or
/// tab.
pub open spec fn is_fn_space(c: char) -> bool {
    c == ' ' || c == '\t'
}

pub open spec fn is_digit(c: char) -> bool {
    ('0' as u32) <= (c as u32) && (c as u32) <= ('9' as u32)
}

pub open spec fn is_hex_digit(c: char) -> bool {
    ||| is_digit(c)
    ||| ('a' as u32) <= (c as u32) && (c as u32) <= ('f' as u32)
    ||| ('A' as u32) <= (c as u32) && (c as u32) <= ('F' as u32)
}

pub open spec fn is_oct_digit(c: char) -> bool {
    ('0' as u32) <= (c as u32) && (c as u32) <= ('7' as u32)
}

pub open spec fn is_alpha(c: char) -> bool {
    ||| ('a' as u32) <= (c as u32) && (c as u32) <= ('z' as u32)
    ||| ('A' as u32) <= (c as u32) && (c as u32) <= ('Z' as u32)
}

pub open spec fn is_ident_start(c: char) -> bool {
    is_alpha(c) || c == '_'
}

pub open spec fn is_ident_char(c: char) -> bool {
    is_alpha(c) || is_digit(c) || c == '_'
}

/// First position at or after `i` whose character is not insignificant
/// whitespace.
pub open spec fn sp_ws(s: Seq<char>, i: int) -> int
    decreases s.len() - i,
{
    if 0 <= i < s.len() && is_multispace(s[i]) {
        sp_ws(s, i + 1)
    } else {
        i
    }
}

/// First position at or after `i` whose character is not space or tab.
pub open spec fn sp_fn_space(s: Seq<char>, i: int) -> int
    decreases s.len() - i,
{
    if 0 <= i < s.len() && is_fn_space(s[i]) {
        sp_fn_space(s, i + 1)
    } else {
        i
    }
}

/// End of the maximal run of identifier characters from `i`.
pub open spec fn sp_ident_end(s: Seq<char>, i: int) -> int
    decreases s.len() - i,
{
    if 0 <= i < s.len() && is_ident_char(s[i]) {
        sp_ident_end(s, i + 1)
    } else {
        i
    }
}

/// End of the maximal run of decimal digits and `_` from `i`.
pub open spec fn sp_digits_end(s: Seq<char>, i: int) -> int
    decreases s.len() - i,
{
    if 0 <= i < s.len() && (is_digit(s[i]) || s[i] == '_') {
        sp_digits_end(s, i + 1)
    } else {
        i
    }
}

/// End of the maximal run of hex digits and `_` from `i`.
pub open spec fn sp_hex_end(s: Seq<char>, i: int) -> int
    decreases s.len() - i,
{
    if 0 <= i < s.len() && (is_hex_digit(s[i]) || s[i] == '_') {
        sp_hex_end(s, i + 1)
    } else {
        i
    }
}

/// End of the maximal run of octal digits and `_` from `i`.
pub open spec fn sp_oct_end(s: Seq<char>, i: int) -> int
    decreases s.len() - i,
{
    if 0 <= i < s.len() && (is_oct_digit(s[i]) || s[i] == '_') {
        sp_oct_end(s, i + 1)
    } else {
        i
    }
}

/// Match the literal word `t` at `i`.
pub open spec fn sp_tag(s: Seq<char>, i: int, t: Seq<char>) -> Option<int> {
    if 0 <= i && i + t.len() <= s.len() && s.subrange(i, i + t.len()) == t {
        Some(i + t.len())
    } else {
        None
    }
}

/// Match one character `c` at `i`.
pub open spec fn sp_char(s: Seq<char>, i: int, c: char) -> Option<int> {
    if 0 <= i < s.len() && s[i] == c {
        Some(i + 1)
    } else {
        None
    }
}

/// An identifier: a letter or `_`, then letters, digits and `_`, as far as
/// they go.
pub open spec fn sp_identifier(s: Seq<char>, i: int) -> Option<(int, Seq<char>)> {
    if 0 <= i < s.len() && is_ident_start(s[i]) {
        let e = sp_ident_end(s, i + 1);
        Some((e, s.subrange(i, e)))
    } else {
        None
    }
}

/// The optional `mut` qualifier; never fails.
pub open spec fn sp_mut_qual(s: Seq<char>, i: int) -> (int, bool) {
    match sp_tag(s, i, "mut"@) {
        Some(j) => (j, true),
        None => (i, false),
    }
}

// ---------------------------------------------------------------------------
// Numeric literals. The lexeme is retained; hex and octal lexemes exclude
// their base prefix.
// ---------------------------------------------------------------------------

/// A decimal digit run with optional `_` separators after each digit.
pub open spec fn sp_decimal(s: Seq<char>, i: int) -> Option<(int, Seq<char>)> {
    if 0 <= i < s.len() && is_digit(s[i]) {
        let e = sp_digits_end(s, i + 1);
        Some((e, s.subrange(i, e)))
    } else {
        None
    }
}

/// `0x` or `0X`, then hex digits with `_` separators.
pub open spec fn sp_hexadecimal(s: Seq<char>, i: int) -> Option<(int, Seq<char>)> {
    if 0 <= i && i + 2 <= s.len() && s[i] == '0' && (s[i + 1] == 'x' || s[i + 1] == 'X') && i + 2
        < s.len() && is_hex_digit(s[i + 2]) {
        let e = sp_hex_end(s, i + 3);
        Some((e, s.subrange(i + 2, e)))
    } else {
        None
    }
}

/// `0o` or `0O`, then octal digits with `_` separators.
pub open spec fn sp_octal(s: Seq<char>, i: int) -> Option<(int, Seq<char>)> {
    if 0 <= i && i + 2 <= s.len() && s[i] == '0' && (s[i + 1] == 'o' || s[i + 1] == 'O') && i + 2
        < s.len() && is_oct_digit(s[i + 2]) {
        let e = sp_oct_end(s, i + 3);
        Some((e, s.subrange(i + 2, e)))
    } else {
        None
    }
}

/// An exponent: `e` or `E`, an optional sign, then a decimal run.
pub open spec fn sp_exponent(s: Seq<char>, i: int) -> Option<int> {
    if 0 <= i < s.len() && (s[i] == 'e' || s[i] == 'E') {
        let j = if i + 1 < s.len() && (s[i + 1] == '+' || s[i + 1] == '-') {
            i + 2
        } else {
            i + 1
        };
        match sp_decimal(s, j) {
            Some((e, _d)) => Some(e),
            None => None,
        }
    } else {
        None
    }
}

/// A float lexeme, by the three canonical cases in order: `.d[exp]`,
/// `d[.d]exp`, and `d.[d]`.
pub open spec fn sp_float(s: Seq<char>, i: int) -> Option<(int, Seq<char>)> {
    let case1: Option<int> = match sp_char(s, i, '.') {
        Some(j) => match sp_decimal(s, j) {
            Some((e1, _d)) => match sp_exponent(s, e1) {
                Some(e2) => Some(e2),
                None => Some(e1),
            },
            None => None,
        },
        None => None,
    };
    match case1 {
        Some(e) => Some((e, s.subrange(i, e))),
        None => {
            let case2: Option<int> = match sp_decimal(s, i) {
                Some((e1, _d)) => {
                    let frac_end = match sp_char(s, e1, '.') {
                        Some(j) => match sp_decimal(s, j) {
                            Some((e2, _f)) => e2,
                            None => e1,
                        },
                        None => e1,
                    };
                    sp_exponent(s, frac_end)
                },
                None => None,
            };
            match case2 {
                Some(e) => Some((e, s.subrange(i, e))),
                None => {
                    let case3: Option<int> = match sp_decimal(s, i) {
                        Some((e1, _d)) => match sp_char(s, e1, '.') {
                            Some(j) => match sp_decimal(s, j) {
                                Some((e2, _f)) => Some(e2),
                                None => Some(j),
                            },
                            None => None,
                        },
                        None => None,
                    };
                    match case3 {
                        Some(e) => Some((e, s.subrange(i, e))),
                        None => None,
                    }
                },
            }
        },
    }
}

/// A numeric literal: float forms first, then hex, octal and decimal.
pub open spec fn sp_literal(s: Seq<char>, i: int) -> Option<(int, LitV)> {
    match sp_float(s, i) {
        Some((e, lex)) => Some((e, LitV::Float(lex))),
        None => match sp_hexadecimal(s, i) {
            Some((e, lex)) => Some((e, LitV::Integer(lex))),
            None => match sp_octal(s, i) {
                Some((e, lex)) => Some((e, LitV::Integer(lex))),
                None => match sp_decimal(s, i) {
                    Some((e, lex)) => Some((e, LitV::Integer(lex))),
                    None => None,
                },
            },
        },
    }
}

// ---------------------------------------------------------------------------
// Types.
// ---------------------------------------------------------------------------

/// The flat type names.
pub open spec fn sp_flat_type(s: Seq<char>, i: int) -> Option<(int, EmptyType)> {
    match sp_tag(s, i, "f32"@) {
        Some(j) => Some((j, EmptyType::Float(FloatType::F32))),
        None => match sp_tag(s, i, "f64"@) {
            Some(j) => Some((j, EmptyType::Float(FloatType::F64))),
            None => match sp_tag(s, i, "i32"@) {
                Some(j) => Some((j, EmptyType::Integer(IntegerType::I32))),
                None => match sp_tag(s, i, "i64"@) {
                    Some(j) => Some((j, EmptyType::Integer(IntegerType::I64))),
                    None => match sp_tag(s, i, "isize"@) {
                        Some(j) => Some((j, EmptyType::Integer(IntegerType::PointerSize))),
                        None => None,
                    },
                },
            },
        },
    }
}

/// A type term: a flat type name, or `*` `[mut]` followed by a type.
pub open spec fn sp_arg_type(s: Seq<char>, i: int) -> Option<(int, EmptyType)>
    decreases s.len() - i,
{
    match sp_flat_type(s, i) {
        Some(r) => Some(r),
        None => {
            let w1 = sp_ws(s, i);
            match sp_char(s, w1, '*') {
                None => None,
                Some(j) => {
                    let w2 = sp_ws(s, j);
                    let (w3, m) = sp_mut_qual(s, w2);
                    let w4 = sp_ws(s, w3);
                    if i < w4 <= s.len() {
                        match sp_arg_type(s, w4) {
                            Some((e, ty)) => Some(
                                (e, EmptyType::Pointer(Box::new(Pointer { ty, mutable: m }))),
                            ),
                            None => None,
                        }
                    } else {
                        None
                    }
                },
            }
        },
    }
}

/// The type of a `let` binding: the same terms as `sp_arg_type`.
pub open spec fn sp_assign_type(s: Seq<char>, i: int) -> Option<(int, EmptyType)> {
    sp_arg_type(s, i)
}

/// An earlier form of the type grammar, kept beside the current one: a
/// flat type name, or `*` immediately followed by a type, always with an
/// immutable referent.
pub open spec fn sp_plain_type(s: Seq<char>, i: int) -> Option<(int, EmptyType)>
    decreases s.len() - i,
{
    match sp_flat_type(s, i) {
        Some(r) => Some(r),
        None => match sp_char(s, i, '*') {
            None => None,
            Some(j) => {
                if i < j <= s.len() {
                    match sp_plain_type(s, j) {
                        Some((e, ty)) => Some(
                            (e, EmptyType::Pointer(Box::new(Pointer { ty, mutable: false }))),
                        ),
                        None => None,
                    }
                } else {
                    None
                }
            },
        },
    }
}

/// The outcome of parsing a return type.
pub enum TyRes {
    /// A flat type, and the position after it.
    Found(int, EmptyType),
    /// No type term here.
    NoMatch,
    /// A pointer type, which a function may not return.
    PointerRejected,
}

/// A return type: a flat type name. A pointer type here is rejected
/// outright, as returning a pointer is undefined behaviour in the source
/// language.
pub open spec fn sp_ret_type(s: Seq<char>, i: int) -> TyRes {
    match sp_flat_type(s, i) {
        Some((j, ty)) => TyRes::Found(j, ty),
        None => {
            let w1 = sp_ws(s, i);
            match sp_char(s, w1, '*') {
                None => TyRes::NoMatch,
                Some(j) => {
                    let w2 = sp_ws(s, j);
                    let (w3, m) = sp_mut_qual(s, w2);
                    let w4 = sp_ws(s, w3);
                    if i < w4 <= s.len() {
                        match sp_arg_type(s, w4) {
                            Some(_) => TyRes::PointerRejected,
                            None => TyRes::NoMatch,
                        }
                    } else {
                        TyRes::NoMatch
                    }
                },
            }
        },
    }
}

// ---------------------------------------------------------------------------
// Expressions.
// ---------------------------------------------------------------------------

/// A reference expression: `&` `[mut]` identifier.
pub open spec fn sp_reference(s: Seq<char>, i: int) -> Option<(int, (Seq<char>, bool))> {
    match sp_char(s, i, '&') {
        None => None,
        Some(j) => {
            let w1 = sp_ws(s, j);
            let (w2, m) = sp_mut_qual(s, w1);
            let w3 = sp_ws(s, w2);
            match sp_identifier(s, w3) {
                Some((e, name)) => Some((e, (name, m))),
                None => None,
            }
        },
    }
}

/// A dereference expression: `*` identifier.
pub open spec fn sp_dereference(s: Seq<char>, i: int) -> Option<(int, Seq<char>)> {
    match sp_char(s, i, '*') {
        None => None,
        Some(j) => sp_identifier(s, j),
    }
}

/// A call: identifier, `(`, comma-separated expressions with an optional
/// trailing comma, `)`.
pub open spec fn sp_func_call(s: Seq<char>, i: int) -> Option<(int, CallV)>
    decreases s.len() - i, 0int,
{
    match sp_identifier(s, i) {
        None => None,
        Some((j, name)) => {
            let w1 = sp_ws(s, j);
            match sp_char(s, w1, '(') {
                None => None,
                Some(j2) => {
                    let w2 = sp_ws(s, j2);
                    if i < w2 <= s.len() {
                        let (p1, args) = sp_expr_list(s, w2);
                        let p2 = match sp_char(s, p1, ',') {
                            Some(q) => q,
                            None => p1,
                        };
                        let w3 = sp_ws(s, p2);
                        match sp_char(s, w3, ')') {
                            None => None,
                            Some(q) => Some((sp_ws(s, q), CallV { func: name, args })),
                        }
                    } else {
                        None
                    }
                },
            }
        },
    }
}

/// A possibly empty comma-separated expression list; stops before the
/// first separator not followed by an expression.
pub open spec fn sp_expr_list(s: Seq<char>, i: int) -> (int, Seq<ExprV>)
    decreases s.len() - i, 2int,
{
    match sp_expression(s, i) {
        None => (i, Seq::empty()),
        Some((p, e)) => {
            if i < p <= s.len() {
                let (q, rest) = sp_expr_list_more(s, p);
                (q, seq![e] + rest)
            } else {
                (p, seq![e])
            }
        },
    }
}

pub open spec fn sp_expr_list_more(s: Seq<char>, i: int) -> (int, Seq<ExprV>)
    decreases s.len() - i, 3int,
{
    let w1 = sp_ws(s, i);
    match sp_char(s, w1, ',') {
        None => (i, Seq::empty()),
        Some(j) => {
            let w2 = sp_ws(s, j);
            if i < w2 <= s.len() {
                match sp_expression(s, w2) {
                    None => (i, Seq::empty()),
                    Some((p, e)) => {
                        if w2 < p <= s.len() {
                            let (q, rest) = sp_expr_list_more(s, p);
                            (q, seq![e] + rest)
                        } else {
                            (p, seq![e])
                        }
                    },
                }
            } else {
                (i, Seq::empty())
            }
        },
    }
}

/// An expression, with surrounding whitespace: a literal, a call, a
/// reference, a dereference, or an identifier, tried in that order.
pub open spec fn sp_expression(s: Seq<char>, i: int) -> Option<(int, ExprV)>
    decreases s.len() - i, 1int,
{
    let a = sp_ws(s, i);
    if i <= a <= s.len() {
        let inner: Option<(int, ExprV)> = match sp_literal(s, a) {
            Some((p, l)) => Some((p, ExprV::Literal(l))),
            None => match sp_func_call(s, a) {
                Some((p, c)) => Some((p, ExprV::Call(c))),
                None => match sp_reference(s, a) {
                    Some((p, (name, m))) => Some((p, ExprV::AddressOf(name, m))),
                    None => match sp_dereference(s, a) {
                        Some((p, name)) => Some((p, ExprV::DeRef(name))),
                        None => match sp_identifier(s, a) {
                            Some((p, name)) => Some((p, ExprV::Identifier(name))),
                            None => None,
                        },
                    },
                },
            },
        };
        match inner {
            None => None,
            Some((p, e)) => Some((sp_ws(s, p), e)),
        }
    } else {
        None
    }
}

// ---------------------------------------------------------------------------
// Statements.
// ---------------------------------------------------------------------------

/// `let [mut] name: type = expression`.
pub open spec fn sp_assignment(s: Seq<char>, i: int) -> Option<(int, AssignV)> {
    let w1 = sp_ws(s, i);
    match sp_tag(s, w1, "let"@) {
        None => None,
        Some(j) => {
            let w2 = sp_ws(s, j);
            let w3 = sp_ws(s, w2);
            let (w4, m) = sp_mut_qual(s, w3);
            let w5 = sp_ws(s, w4);
            match sp_identifier(s, w5) {
                None => None,
                Some((p1, target)) => {
                    let w6 = sp_ws(s, p1);
                    match sp_char(s, w6, ':') {
                        None => None,
                        Some(p2) => {
                            let w7 = sp_ws(s, p2);
                            match sp_assign_type(s, w7) {
                                None => None,
                                Some((p3, ty)) => {
                                    let w8 = sp_ws(s, p3);
                                    match sp_char(s, w8, '=') {
                                        None => None,
                                        Some(p4) => {
                                            let w9 = sp_ws(s, p4);
                                            match sp_expression(s, w9) {
                                                None => None,
                                                Some((p5, value)) => Some(
                                                    (
                                                        p5,
                                                        AssignV {
                                                            target,
                                                            value,
                                                            var_type: ty,
                                                            mutable: m,
                                                        },
                                                    ),
                                                ),
                                            }
                                        },
                                    }
                                },
                            }
                        },
                    }
                },
            }
        },
    }
}

/// `name = expression`.
pub open spec fn sp_reassign(s: Seq<char>, i: int) -> Option<(int, LocalV)> {
    match sp_identifier(s, i) {
        None => None,
        Some((p1, target)) => {
            let w1 = sp_ws(s, p1);
            match sp_char(s, w1, '=') {
                None => None,
                Some(p2) => {
                    let w2 = sp_ws(s, p2);
                    match sp_expression(s, w2) {
                        None => None,
                        Some((p3, value)) => Some((p3, LocalV { target, value })),
                    }
                },
            }
        },
    }
}

/// `return expression`.
pub open spec fn sp_return(s: Seq<char>, i: int) -> Option<(int, ExprV)> {
    let w1 = sp_ws(s, i);
    match sp_tag(s, w1, "return"@) {
        None => None,
        Some(j) => {
            let w2 = sp_ws(s, j);
            sp_expression(s, w2)
        },
    }
}

/// `x` followed by whitespace, `;`, whitespace.
pub open spec fn sp_semi(s: Seq<char>, i: int) -> Option<int> {
    let w1 = sp_ws(s, i);
    match sp_char(s, w1, ';') {
        None => None,
        Some(j) => Some(sp_ws(s, j)),
    }
}

/// `if expression { stmt* }`.
pub open spec fn sp_if_stmt(s: Seq<char>, i: int) -> Option<(int, (ExprV, Seq<StmtV>))>
    decreases s.len() - i, 0int,
{
    match sp_tag(s, i, "if"@) {
        None => None,
        Some(j) => {
            let w1 = sp_ws(s, j);
            match sp_expression(s, w1) {
                None => None,
                Some((p1, cond)) => {
                    let w2 = sp_ws(s, p1);
                    let w3 = sp_ws(s, w2);
                    match sp_char(s, w3, '{') {
                        None => None,
                        Some(p2) => {
                            let w4 = sp_ws(s, p2);
                            if i < w4 <= s.len() {
                                let (p3, body) = sp_stmt_list(s, w4);
                                let w5 = sp_ws(s, p3);
                                match sp_char(s, w5, '}') {
                                    None => None,
                                    Some(p4) => Some((sp_ws(s, p4), (cond, body))),
                                }
                            } else {
                                None
                            }
                        },
                    }
                },
            }
        },
    }
}

/// One statement: an `if`, or a `return`, call, reassignment, or
/// declaration followed by `;`, tried in that order.
pub open spec fn sp_stmt(s: Seq<char>, i: int) -> Option<(int, StmtV)>
    decreases s.len() - i, 1int,
{
    match sp_if_stmt(s, i) {
        Some((p, (cond, body))) => Some((p, StmtV::If(cond, body))),
        None => match sp_return(s, i) {
            Some((p, e)) => match sp_semi(s, p) {
                Some(q) => Some((q, StmtV::Return(e))),
                None => sp_stmt_rest(s, i),
            },
            None => sp_stmt_rest(s, i),
        },
    }
}

/// The alternatives of `sp_stmt` after `if` and `return`.
pub open spec fn sp_stmt_rest(s: Seq<char>, i: int) -> Option<(int, StmtV)>
    decreases s.len() - i, 0int,
{
    match sp_func_call(s, i) {
        Some((p, c)) => match sp_semi(s, p) {
            Some(q) => Some((q, StmtV::Call(c))),
            None => sp_stmt_rest2(s, i),
        },
        None => sp_stmt_rest2(s, i),
    }
}

pub open spec fn sp_stmt_rest2(s: Seq<char>, i: int) -> Option<(int, StmtV)> {
    match sp_reassign(s, i) {
        Some((p, l)) => match sp_semi(s, p) {
            Some(q) => Some((q, StmtV::ReAssign(l))),
            None => sp_stmt_rest3(s, i),
        },
        None => sp_stmt_rest3(s, i),
    }
}

pub open spec fn sp_stmt_rest3(s: Seq<char>, i: int) -> Option<(int, StmtV)> {
    match sp_assignment(s, i) {
        Some((p, a)) => match sp_semi(s, p) {
            Some(q) => Some((q, StmtV::Assign(a))),
            None => None,
        },
        None => None,
    }
}

/// Zero or more statements.
pub open spec fn sp_stmt_list(s: Seq<char>, i: int) -> (int, Seq<StmtV>)
    decreases s.len() - i, 2int,
{
    match sp_stmt(s, i) {
        None => (i, Seq::empty()),
        Some((p, st)) => {
            if i < p <= s.len() {
                let (q, rest) = sp_stmt_list(s, p);
                (q, seq![st] + rest)
            } else {
                (p, seq![st])
            }
        },
    }
}

// ---------------------------------------------------------------------------
// Function declarations and programs.
// ---------------------------------------------------------------------------

/// `name: type`, the head of a parameter list.
pub open spec fn sp_one_arg(s: Seq<char>, i: int) -> Option<(int, ArgV)> {
    match sp_identifier(s, i) {
        None => None,
        Some((p1, name)) => {
            let w1 = sp_ws(s, p1);
            match sp_char(s, w1, ':') {
                None => None,
                Some(p2) => {
                    let w2 = sp_ws(s, p2);
                    match sp_arg_type(s, w2) {
                        None => None,
                        Some((p3, t)) => Some((p3, ArgV { name, t })),
                    }
                },
            }
        },
    }
}

/// A possibly empty comma-separated parameter list, with an optional
/// trailing comma.
pub open spec fn sp_args(s: Seq<char>, i: int) -> (int, Seq<ArgV>) {
    match sp_one_arg(s, i) {
        None => {
            let p = match sp_char(s, i, ',') {
                Some(q) => q,
                None => i,
            };
            (p, Seq::empty())
        },
        Some((p, a)) => {
            let (q, rest) = sp_args_more(s, p);
            let q2 = match sp_char(s, q, ',') {
                Some(q3) => q3,
                None => q,
            };
            (q2, seq![a] + rest)
        },
    }
}

pub open spec fn sp_args_more(s: Seq<char>, i: int) -> (int, Seq<ArgV>)
    decreases s.len() - i,
{
    let w1 = sp_ws(s, i);
    match sp_char(s, w1, ',') {
        None => (i, Seq::empty()),
        Some(j) => {
            let w2 = sp_ws(s, j);
            match sp_one_arg(s, w2) {
                None => (i, Seq::empty()),
                Some((p, a)) => {
                    if i < p <= s.len() {
                        let (q, rest) = sp_args_more(s, p);
                        (q, seq![a] + rest)
                    } else {
                        (p, seq![a])
                    }
                },
            }
        },
    }
}

/// A function declaration. `Ok(None)` means no declaration starts here;
/// the two hard diagnostics are a missing return type and a pointer
/// return type.
pub open spec fn sp_function(s: Seq<char>, i: int) -> Result<Option<(int, FnDeclV)>, ParseErrV> {
    match sp_tag(s, i, "fn"@) {
        None => Ok(None),
        Some(j) => {
            if j < s.len() && is_fn_space(s[j]) {
                let k = sp_fn_space(s, j + 1);
                match sp_identifier(s, k) {
                    None => Ok(None),
                    Some((p1, name)) => {
                        let w1 = sp_ws(s, p1);
                        match sp_char(s, w1, '(') {
                            None => Ok(None),
                            Some(p2) => {
                                let w2 = sp_ws(s, p2);
                                let (p3, args) = sp_args(s, w2);
                                let w3 = sp_ws(s, p3);
                                match sp_char(s, w3, ')') {
                                    None => Ok(None),
                                    Some(p4) => {
                                        let w4 = sp_ws(s, p4);
                                        let arrow = sp_ws(s, w4);
                                        let ret: Result<Option<(int, EmptyType)>, ParseErrV> =
                                            match sp_tag(s, arrow, "->"@) {
                                            None => Ok(None),
                                            Some(p5) => {
                                                let w5 = sp_ws(s, p5);
                                                match sp_ret_type(s, w5) {
                                                    TyRes::Found(p6, ty) => Ok(Some((p6, ty))),
                                                    TyRes::NoMatch => Ok(None),
                                                    TyRes::PointerRejected => Err(
                                                        ParseErrV::PointerReturn,
                                                    ),
                                                }
                                            },
                                        };
                                        match ret {
                                            Err(e) => Err(e),
                                            Ok(ret2) => {
                                                let after_ret = match ret2 {
                                                    Some((p6, _ty)) => p6,
                                                    None => w4,
                                                };
                                                let w6 = sp_ws(s, after_ret);
                                                match sp_char(s, w6, '{') {
                                                    None => Ok(None),
                                                    Some(p7) => {
                                                        let w7 = sp_ws(s, p7);
                                                        if i < w7 <= s.len() {
                                                            let (p8, body) = sp_stmt_list(s, w7);
                                                            let w8 = sp_ws(s, p8);
                                                            match sp_char(s, w8, '}') {
                                                                None => Ok(None),
                                                                Some(p9) => {
                                                                    match ret2 {
                                                                        None => Err(
                                                                            ParseErrV::MissingReturnType {
                                                                                func: name,
                                                                            },
                                                                        ),
                                                                        Some((_p6, ty)) => Ok(
                                                                            Some(
                                                                                (
                                                                                    sp_ws(s, p9),
                                                                                    FnDeclV {
                                                                                        name,
                                                                                        args,
                                                                                        ret_type: ty,
                                                                                        body,
                                                                                    },
                                                                                ),
                                                                            ),
                                                                        ),
                                                                    }
                                                                },
                                                            }
                                                        } else {
                                                            Ok(None)
                                                        }
                                                    },
                                                }
                                            },
                                        }
                                    },
                                }
                            },
                        }
                    },
                }
            } else {
                Ok(None)
            }
        },
    }
}

/// The declarations of a program, from `i`, with leading whitespace
/// before each declaration.
pub open spec fn sp_program(s: Seq<char>, i: int) -> Result<(int, Seq<FnDeclV>), ParseErrV>
    decreases s.len() - i,
{
    let a = sp_ws(s, i);
    if i <= a <= s.len() {
        match sp_function(s, a) {
            Err(e) => Err(e),
            Ok(None) => Ok((i, Seq::empty())),
            Ok(Some((p, d))) => {
                if i < p <= s.len() {
                    match sp_program(s, p) {
                        Err(e) => Err(e),
                        Ok((q, rest)) => Ok((q, seq![d] + rest)),
                    }
                } else {
                    Ok((p, seq![d]))
                }
            },
        }
    } else {
        Ok((i, Seq::empty()))
    }
}

/// What parsing a whole source text yields: the declarations, or the
/// diagnostic. Parsing succeeds exactly when the text is a sequence of
/// well-formed function declarations with nothing but whitespace between
/// and around them.
pub open spec fn sp_parse(s: Seq<char>) -> Result<Seq<FnDeclV>, ParseErrV> {
    match sp_program(s, 0) {
        Err(e) => Err(e),
        Ok((p, ds)) => {
            if p < s.len() {
                Err(ParseErrV::Syntax { rest: s.subrange(p, s.len() as int) })
            } else {
                Ok(ds)
            }
        },
    }
}

} // verus!
