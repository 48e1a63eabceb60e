//! The process-local map of all declared functions, consulted when a call
//! site needs a user function's signature.

use vstd::prelude::*;
use crate::ast::{FnDecl, FnDeclV, decl_view, decls_view};
use crate::semantics::spec_find_fn;

verus! {

/// All function declarations of the program, keyed by name. Built once
/// from the parsed declarations, before any translation begins, and
/// read-only afterwards.
pub struct FnTable {
    pub entries: Vec<FnDecl>,
}

pub open spec fn fns_view(t: FnTable) -> Seq<FnDeclV> {
    decls_view(t.entries@)
}

impl FnTable {
    /// The declaration carrying `name`, if any; a later declaration of a
    /// name shadows an earlier one.
    #[verifier::loop_isolation(false)]
    pub fn find(&self, name: &String) -> (r: Option<&FnDecl>)
        ensures
            match r {
                Some(d) => spec_find_fn(fns_view(*self), name@) == Some(decl_view(*d)),
                None => spec_find_fn(fns_view(*self), name@) is None,
            },
    {
        let ghost fv = fns_view(*self);
        proof {
            assert(fv.take(self.entries@.len() as int) =~= fv);
        }
        let mut i: usize = self.entries.len();
        while i > 0
            invariant
                0 <= i <= self.entries@.len(),
                fv == fns_view(*self),
                fv.len() == self.entries@.len(),
                forall|k: int| 0 <= k < fv.len() ==> fv[k] == decl_view(self.entries@[k]),
                spec_find_fn(fv, name@) == spec_find_fn(fv.take(i as int), name@),
            decreases i,
        {
            proof {
                assert(fv.take(i as int).last() == fv[i - 1]);
                assert(fv.take(i as int).drop_last() =~= fv.take(i - 1));
            }
            i = i - 1;
            if self.entries[i].name.eq(name) {
                return Some(&self.entries[i]);
            }
        }
        proof {
            assert(fv.take(0) =~= Seq::<FnDeclV>::empty());
        }
        None
    }
}

/// Collect the parsed declarations into the function map.
pub fn build_fn_map(nodes: Vec<FnDecl>) -> (t: FnTable)
    ensures
        fns_view(t) == decls_view(nodes@),
{
    FnTable { entries: nodes }
}

} // verus!
