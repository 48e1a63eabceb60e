//! Numeric literal recognition. The lexeme is retained as text; hex and
//! octal lexemes exclude their base prefix. Each function is proved equal
//! to its counterpart in `grammar`.

use vstd::prelude::*;
use crate::ast::{FloatLiteral, IntegerLiteral, Literal, lit_view};
use crate::parser::grammar::{sp_decimal, sp_digits_end, sp_exponent, sp_float, sp_hex_end,
    sp_hexadecimal, sp_literal, sp_oct_end, sp_octal};
use crate::parser::helpers::{is_digit_c, is_hex_digit_c, is_oct_digit_c};

verus! {

#[verifier::loop_isolation(false)]
fn digits_end(s: &str, pos: usize) -> (r: usize)
    requires
        pos as int <= s@.len(),
    ensures
        r as int == sp_digits_end(s@, pos as int),
        pos <= r,
        r as int <= s@.len(),
{
    let n = s.unicode_len();
    let mut i: usize = pos;
    loop
        invariant
            pos <= i <= n,
            n == s@.len(),
            sp_digits_end(s@, pos as int) == sp_digits_end(s@, i as int),
        decreases n - i,
    {
        if i >= n {
            return i;
        }
        let c = s.get_char(i);
        if !(is_digit_c(c) || c == '_') {
            return i;
        }
        i = i + 1;
    }
}

#[verifier::loop_isolation(false)]
fn hex_end(s: &str, pos: usize) -> (r: usize)
    requires
        pos as int <= s@.len(),
    ensures
        r as int == sp_hex_end(s@, pos as int),
        pos <= r,
        r as int <= s@.len(),
{
    let n = s.unicode_len();
    let mut i: usize = pos;
    loop
        invariant
            pos <= i <= n,
            n == s@.len(),
            sp_hex_end(s@, pos as int) == sp_hex_end(s@, i as int),
        decreases n - i,
    {
        if i >= n {
            return i;
        }
        let c = s.get_char(i);
        if !(is_hex_digit_c(c) || c == '_') {
            return i;
        }
        i = i + 1;
    }
}

#[verifier::loop_isolation(false)]
fn oct_end(s: &str, pos: usize) -> (r: usize)
    requires
        pos as int <= s@.len(),
    ensures
        r as int == sp_oct_end(s@, pos as int),
        pos <= r,
        r as int <= s@.len(),
{
    let n = s.unicode_len();
    let mut i: usize = pos;
    loop
        invariant
            pos <= i <= n,
            n == s@.len(),
            sp_oct_end(s@, pos as int) == sp_oct_end(s@, i as int),
        decreases n - i,
    {
        if i >= n {
            return i;
        }
        let c = s.get_char(i);
        if !(is_oct_digit_c(c) || c == '_') {
            return i;
        }
        i = i + 1;
    }
}

/// End of a decimal digit run (with `_` separators) starting at `pos`.
fn decimal(s: &str, pos: usize) -> (r: Option<usize>)
    requires
        pos as int <= s@.len(),
    ensures
        match r {
            Some(e) => {
                &&& sp_decimal(s@, pos as int) matches Some((e2, _lex)) && e as int == e2
                &&& pos < e
                &&& e as int <= s@.len()
            },
            None => sp_decimal(s@, pos as int) is None,
        },
{
    let n = s.unicode_len();
    if pos >= n {
        return None;
    }
    let c = s.get_char(pos);
    if !is_digit_c(c) {
        return None;
    }
    let e = digits_end(s, pos + 1);
    Some(e)
}

/// End of an exponent (`e`/`E`, optional sign, decimal run) at `pos`.
fn exponent(s: &str, pos: usize) -> (r: Option<usize>)
    requires
        pos as int <= s@.len(),
    ensures
        match r {
            Some(e) => {
                &&& sp_exponent(s@, pos as int) == Some(e as int)
                &&& pos < e
                &&& e as int <= s@.len()
            },
            None => sp_exponent(s@, pos as int) is None,
        },
{
    let n = s.unicode_len();
    if pos >= n {
        return None;
    }
    let c = s.get_char(pos);
    if !(c == 'e' || c == 'E') {
        return None;
    }
    let j: usize = if pos + 1 < n {
        let c2 = s.get_char(pos + 1);
        if c2 == '+' || c2 == '-' {
            pos + 2
        } else {
            pos + 1
        }
    } else {
        pos + 1
    };
    match decimal(s, j) {
        Some(e) => Some(e),
        None => None,
    }
}

/// End of a float lexeme at `pos`, by the three canonical cases in order.
fn float_end(s: &str, pos: usize) -> (r: Option<usize>)
    requires
        pos as int <= s@.len(),
    ensures
        match r {
            Some(e) => {
                &&& sp_float(s@, pos as int) matches Some((e2, _lex)) && e as int == e2
                &&& pos <= e
                &&& e as int <= s@.len()
            },
            None => sp_float(s@, pos as int) is None,
        },
{
    let n = s.unicode_len();
    // Case one: .42 with an optional exponent.
    if pos < n && s.get_char(pos) == '.' {
        match decimal(s, pos + 1) {
            Some(e1) => {
                match exponent(s, e1) {
                    Some(e2) => {
                        return Some(e2);
                    },
                    None => {
                        return Some(e1);
                    },
                }
            },
            None => {},
        }
    }
    // Case two: 42e42 and 42.42e42.
    match decimal(s, pos) {
        Some(e1) => {
            let frac_end: usize = if e1 < n && s.get_char(e1) == '.' {
                match decimal(s, e1 + 1) {
                    Some(e2) => e2,
                    None => e1,
                }
            } else {
                e1
            };
            match exponent(s, frac_end) {
                Some(e3) => {
                    return Some(e3);
                },
                None => {},
            }
            // Case three: 42. and 42.42.
            if e1 < n && s.get_char(e1) == '.' {
                match decimal(s, e1 + 1) {
                    Some(e2) => Some(e2),
                    None => Some(e1 + 1),
                }
            } else {
                None
            }
        },
        None => None,
    }
}

/// A numeric literal: float forms first, then hex, octal, decimal.
pub fn literal(s: &str, pos: usize) -> (r: Option<(usize, Literal)>)
    requires
        pos as int <= s@.len(),
    ensures
        match r {
            Some((p, l)) => {
                &&& sp_literal(s@, pos as int) == Some((p as int, lit_view(l)))
                &&& pos <= p
                &&& p as int <= s@.len()
            },
            None => sp_literal(s@, pos as int) is None,
        },
{
    let n = s.unicode_len();
    match float_end(s, pos) {
        Some(e) => {
            let lex = s.substring_char(pos, e);
            return Some((e, Literal::Float(FloatLiteral::new(lex))));
        },
        None => {},
    }
    // Hexadecimal: 0x / 0X then hex digits.
    if n > 2 && pos < n - 2 && s.get_char(pos) == '0' {
        let c1 = s.get_char(pos + 1);
        if c1 == 'x' || c1 == 'X' {
            let c2 = s.get_char(pos + 2);
            if is_hex_digit_c(c2) {
                let e = hex_end(s, pos + 3);
                let lex = s.substring_char(pos + 2, e);
                return Some((e, Literal::Integer(IntegerLiteral::new(lex))));
            }
        }
        if c1 == 'o' || c1 == 'O' {
            let c2 = s.get_char(pos + 2);
            if is_oct_digit_c(c2) {
                let e = oct_end(s, pos + 3);
                let lex = s.substring_char(pos + 2, e);
                return Some((e, Literal::Integer(IntegerLiteral::new(lex))));
            }
        }
    }
    // Decimal.
    match decimal(s, pos) {
        Some(e) => {
            let lex = s.substring_char(pos, e);
            Some((e, Literal::Integer(IntegerLiteral::new(lex))))
        },
        None => None,
    }
}

} // verus!
