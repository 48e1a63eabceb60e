//! Shared lexical helpers of the parser: whitespace skipping, literal
//! words, identifiers, and the optional `mut` qualifier. Each is proved
//! equal to its counterpart in `grammar`.

use vstd::prelude::*;
use crate::ast::Name;
use crate::parser::grammar::{is_alpha, is_digit, is_hex_digit, is_ident_char, is_ident_start,
    is_multispace, is_oct_digit, sp_identifier, sp_mut_qual, sp_tag, sp_ws};

verus! {

pub fn is_multispace_c(c: char) -> (r: bool)
    ensures
        r == is_multispace(c),
{
    c == ' ' || c == '\t' || c == '\r' || c == '\n'
}

pub fn is_digit_c(c: char) -> (r: bool)
    ensures
        r == is_digit(c),
{
    let u = c as u32;
    0x30 <= u && u <= 0x39
}

pub fn is_hex_digit_c(c: char) -> (r: bool)
    ensures
        r == is_hex_digit(c),
{
    let u = c as u32;
    (0x30 <= u && u <= 0x39) || (0x61 <= u && u <= 0x66) || (0x41 <= u && u <= 0x46)
}

pub fn is_oct_digit_c(c: char) -> (r: bool)
    ensures
        r == is_oct_digit(c),
{
    let u = c as u32;
    0x30 <= u && u <= 0x37
}

pub fn is_alpha_c(c: char) -> (r: bool)
    ensures
        r == is_alpha(c),
{
    let u = c as u32;
    (0x61 <= u && u <= 0x7A) || (0x41 <= u && u <= 0x5A)
}

pub fn is_ident_start_c(c: char) -> (r: bool)
    ensures
        r == is_ident_start(c),
{
    is_alpha_c(c) || c == '_'
}

pub fn is_ident_char_c(c: char) -> (r: bool)
    ensures
        r == is_ident_char(c),
{
    is_alpha_c(c) || is_digit_c(c) || c == '_'
}

/// Skip insignificant whitespace.
#[verifier::loop_isolation(false)]
pub fn ws_skip(s: &str, pos: usize) -> (r: usize)
    requires
        pos as int <= s@.len(),
    ensures
        r as int == sp_ws(s@, pos as int),
        pos <= r,
        r as int <= s@.len(),
{
    let n = s.unicode_len();
    let mut i: usize = pos;
    loop
        invariant
            pos <= i <= n,
            n == s@.len(),
            sp_ws(s@, pos as int) == sp_ws(s@, i as int),
        decreases n - i,
    {
        if i >= n {
            return i;
        }
        let c = s.get_char(i);
        if !is_multispace_c(c) {
            return i;
        }
        i = i + 1;
    }
}

/// Match the literal word `lit` at `pos`.
#[verifier::loop_isolation(false)]
pub fn tag_lit(s: &str, pos: usize, lit: &str) -> (r: Option<usize>)
    requires
        pos as int <= s@.len(),
    ensures
        match r {
            Some(p) => {
                &&& sp_tag(s@, pos as int, lit@) == Some(p as int)
                &&& pos <= p
                &&& p as int <= s@.len()
            },
            None => sp_tag(s@, pos as int, lit@) is None,
        },
{
    let n = s.unicode_len();
    let m = lit.unicode_len();
    if m > n - pos {
        return None;
    }
    let mut k: usize = 0;
    while k < m
        invariant
            0 <= k <= m,
            m == lit@.len(),
            n == s@.len(),
            pos + m <= n,
            forall|j: int| 0 <= j < k ==> s@[pos + j] == lit@[j],
        decreases m - k,
    {
        if s.get_char(pos + k) != lit.get_char(k) {
            proof {
                assert(s@.subrange(pos as int, pos + m as int)[k as int] == s@[pos + k]);
            }
            return None;
        }
        k = k + 1;
    }
    proof {
        assert(s@.subrange(pos as int, pos + m as int) =~= lit@);
    }
    Some(pos + m)
}

/// An identifier in the Rust style: a letter or `_`, then letters, digits
/// and `_`.
#[verifier::loop_isolation(false)]
pub fn identifier<'a>(s: &'a str, pos: usize) -> (r: Option<(usize, &'a str)>)
    requires
        pos as int <= s@.len(),
    ensures
        match r {
            Some((p, id)) => {
                &&& sp_identifier(s@, pos as int) == Some((p as int, id@))
                &&& pos <= p
                &&& p as int <= s@.len()
            },
            None => sp_identifier(s@, pos as int) is None,
        },
{
    let n = s.unicode_len();
    if pos >= n {
        return None;
    }
    let c0 = s.get_char(pos);
    if !is_ident_start_c(c0) {
        return None;
    }
    let mut e: usize = pos + 1;
    loop
        invariant
            pos + 1 <= e <= n,
            n == s@.len(),
            crate::parser::grammar::sp_ident_end(s@, pos + 1) == crate::parser::grammar::sp_ident_end(
                s@,
                e as int,
            ),
        decreases n - e,
    {
        if e >= n {
            break ;
        }
        let c = s.get_char(e);
        if !is_ident_char_c(c) {
            break ;
        }
        e = e + 1;
    }
    let id = s.substring_char(pos, e);
    Some((e, id))
}

/// An identifier, as a `Name` node.
pub fn identifier_to_obj(s: &str, pos: usize) -> (r: Option<(usize, Name)>)
    requires
        pos as int <= s@.len(),
    ensures
        match r {
            Some((p, name)) => {
                &&& sp_identifier(s@, pos as int) matches Some((p2, id)) && p as int == p2
                    && name.ident@ == id
                &&& pos <= p
                &&& p as int <= s@.len()
            },
            None => sp_identifier(s@, pos as int) is None,
        },
{
    match identifier(s, pos) {
        None => None,
        Some((p, id)) => Some((p, Name { ident: id.to_owned() })),
    }
}

/// An earlier form of the type grammar, kept beside the current one: a
/// flat type name, or `*` immediately followed by a type; pointers read
/// this way always have an immutable referent.
pub fn arg_type(s: &str, pos: usize) -> (r: Option<(usize, crate::ast::EmptyType)>)
    requires
        pos as int <= s@.len(),
    ensures
        match r {
            Some((p, ty)) => {
                &&& crate::parser::grammar::sp_plain_type(s@, pos as int) == Some((p as int, ty))
                &&& pos <= p
                &&& p as int <= s@.len()
            },
            None => crate::parser::grammar::sp_plain_type(s@, pos as int) is None,
        },
    decreases s@.len() - pos,
{
    let n = s.unicode_len();
    match crate::parser::stmts::flat_type(s, pos) {
        Some(r) => Some(r),
        None => {
            if pos < n && s.get_char(pos) == '*' {
                match arg_type(s, pos + 1) {
                    Some((e, ty)) => Some(
                        (
                            e,
                            crate::ast::EmptyType::Pointer(
                                Box::new(crate::ast::Pointer { ty, mutable: false }),
                            ),
                        ),
                    ),
                    None => None,
                }
            } else {
                None
            }
        },
    }
}

/// The optional `mut` qualifier; consumes nothing when absent.
pub fn mutable_qualifier(s: &str, pos: usize) -> (r: (usize, bool))
    requires
        pos as int <= s@.len(),
    ensures
        (r.0 as int, r.1) == sp_mut_qual(s@, pos as int),
        pos <= r.0,
        r.0 as int <= s@.len(),
{
    match tag_lit(s, pos, "mut") {
        Some(p) => (p, true),
        None => (pos, false),
    }
}

} // verus!
