//! The parser: source text in, typed abstract syntax tree out. The
//! grammar itself is stated in `grammar`; every function here is proved
//! equal to its specification counterpart.

pub mod expressions;
pub mod grammar;
pub mod helpers;
pub mod literals;
pub mod stmts;

use vstd::prelude::*;
use crate::ast::{FnDecl, FnDeclV, decl_view, decls_view};
use crate::errors::{ParseErrV, ParseError, parse_err_view};
use crate::parser::grammar::{sp_parse, sp_program};
use crate::parser::helpers::ws_skip;
use crate::parser::stmts::function;

verus! {

/// Parse a whole source text into its function declarations.
///
/// Succeeds exactly when the text matches the grammar: a sequence of
/// function declarations with nothing but whitespace between and around
/// them. On failure the diagnostic names the unparsed remainder, the
/// function lacking a return type, or the pointer return type.
#[verifier::loop_isolation(false)]
pub fn parse(input: &str) -> (r: Result<Vec<FnDecl>, ParseError>)
    ensures
        match r {
            Ok(ds) => sp_parse(input@) == Ok::<Seq<FnDeclV>, ParseErrV>(decls_view(ds@)),
            Err(e) => sp_parse(input@) == Err::<Seq<FnDeclV>, ParseErrV>(parse_err_view(e)),
        },
{
    let n = input.unicode_len();
    let mut decls: Vec<FnDecl> = Vec::new();
    let mut q: usize = 0;
    proof {
        assert(decls_view(decls@) =~= Seq::<FnDeclV>::empty());
    }
    loop
        invariant
            q as int <= input@.len(),
            n == input@.len(),
            ({
                let full = sp_program(input@, 0);
                let rest = sp_program(input@, q as int);
                match full {
                    Ok((p, ds)) => {
                        &&& rest matches Ok((p2, ds2))
                        &&& p == p2
                        &&& ds == decls_view(decls@) + ds2
                    },
                    Err(e) => rest == Err::<(int, Seq<FnDeclV>), ParseErrV>(e),
                }
            }),
        decreases input@.len() - q,
    {
        let a = ws_skip(input, q);
        match function(input, a) {
            Err(e) => {
                return Err(e);
            },
            Ok(None) => {
                if q < n {
                    let rest_text = input.substring_char(q, n);
                    return Err(ParseError::Syntax { rest: rest_text.to_owned() });
                } else {
                    proof {
                        match sp_program(input@, 0) {
                            Ok((p, ds)) => {
                                assert(ds =~= decls_view(decls@));
                            },
                            Err(_) => {},
                        }
                    }
                    return Ok(decls);
                }
            },
            Ok(Some((p, d))) => {
                let ghost pre = decls_view(decls@);
                let ghost dv = decl_view(d);
                decls.push(d);
                proof {
                    assert(decls_view(decls@) =~= pre.push(dv));
                }
                if q < p {
                    proof {
                        match sp_program(input@, p as int) {
                            Ok((q2, rest2)) => {
                                assert(pre + (seq![dv] + rest2) =~= decls_view(decls@) + rest2);
                            },
                            Err(_) => {},
                        }
                    }
                    q = p;
                } else {
                    proof {
                        assert(pre + seq![dv] =~= decls_view(decls@));
                        match sp_program(input@, 0) {
                            Ok((p0, ds)) => {
                                assert(ds =~= decls_view(decls@));
                            },
                            Err(_) => {},
                        }
                    }
                    if p < n {
                        let rest_text = input.substring_char(p, n);
                        return Err(ParseError::Syntax { rest: rest_text.to_owned() });
                    } else {
                        return Ok(decls);
                    }
                }
            },
        }
    }
}

} // verus!
