//! The driver: owns the IR module, iterates the top-level function
//! declarations in source order, and translates each one independently
//! against the process-local map of all declarations.

use vstd::prelude::*;
use crate::ast::{FnDecl, FnDeclV, StmtV, decl_view, lemma_stmts_view_len, stmts_view};
use crate::errors::TransError;
use crate::functions::{FnTable, build_fn_map, fns_view};
use crate::ir::{EntryV, FuncIr, IrType, Linkage, ModV, ModuleIr, Sig, StV, func_view,
    lemma_find_entry_props, module_view, sig_view, spec_declare, value_type};
use crate::semantics::{entry_state, lemma_tr_stmt_props, seal_all, spec_append_params,
    spec_compile, spec_user_sig, tr_decl, tr_program, tr_stmts};
use crate::translate::FunctionTranslator;
use crate::variables::{declare_variables, spec_declare_variables, table_view};

verus! {

/// Owns the IR module while the program is translated.
pub struct Compiler {
    pub module: ModuleIr,
}

impl Compiler {
    pub fn new() -> (c: Compiler)
        ensures
            module_view(c.module).entries == Seq::<EntryV>::empty(),
    {
        Compiler { module: ModuleIr::new() }
    }

    /// Compile a parsed program: translate every declaration, and yield
    /// the finished IR module for the backend to lower. On a fresh
    /// compiler this computes exactly `spec_compile` of the program.
    pub fn compile(self, code: Vec<FnDecl>) -> (r: Result<ModuleIr, TransError>)
        ensures
            ({
                let ds = crate::ast::decls_view(code@);
                let r0 = tr_program(ds, ds, module_view(self.module));
                match r {
                    Ok(m) => r0 == Ok::<ModV, crate::errors::ErrV>(module_view(m)),
                    Err(e) => r0 == Err::<ModV, crate::errors::ErrV>(crate::errors::err_view(e)),
                }
            }),
            module_view(self.module).entries == Seq::<EntryV>::empty() ==> ({
                let ds = crate::ast::decls_view(code@);
                match r {
                    Ok(m) => spec_compile(ds) == Ok::<ModV, crate::errors::ErrV>(module_view(m)),
                    Err(e) => spec_compile(ds) == Err::<ModV, crate::errors::ErrV>(
                        crate::errors::err_view(e),
                    ),
                }
            }),
    {
        proof {
            if module_view(self.module).entries == Seq::<EntryV>::empty() {
                assert(module_view(self.module) =~= (ModV { entries: Seq::<EntryV>::empty() }));
            }
        }
        let mut this = self;
        match this.translate(code) {
            Ok(()) => Ok(this.module),
            Err(e) => Err(e),
        }
    }

    /// Translate the declarations in source order.
    #[verifier::loop_isolation(false)]
    #[verifier::rlimit(50)]
    fn translate(&mut self, code: Vec<FnDecl>) -> (r: Result<(), TransError>)
        ensures
            ({
                let ds = crate::ast::decls_view(code@);
                let r0 = tr_program(ds, ds, module_view(old(self).module));
                match r {
                    Ok(()) => r0 == Ok::<ModV, crate::errors::ErrV>(module_view(final(self).module)),
                    Err(e) => r0 == Err::<ModV, crate::errors::ErrV>(crate::errors::err_view(e)),
                }
            }),
    {
        let ghost m0 = module_view(self.module);
        let fn_map = build_fn_map(code);
        let ghost ds = fns_view(fn_map);
        proof {
            assert(ds.skip(0) =~= ds);
        }
        let mut k: usize = 0;
        while k < fn_map.entries.len()
            invariant
                0 <= k <= fn_map.entries@.len(),
                ds == fns_view(fn_map),
                ds.len() == fn_map.entries@.len(),
                forall|j: int| 0 <= j < ds.len() ==> ds[j] == decl_view(fn_map.entries@[j]),
                tr_program(ds, ds, m0) == tr_program(
                    ds,
                    ds.skip(k as int),
                    module_view(self.module),
                ),
            decreases fn_map.entries@.len() - k,
        {
            proof {
                assert(ds.skip(k as int)[0] == ds[k as int]);
                assert(ds.skip(k as int).drop_first() =~= ds.skip(k + 1));
            }
            match self.translate_decl(&fn_map, &fn_map.entries[k]) {
                Ok(()) => {},
                Err(e) => {
                    return Err(e);
                },
            }
            k = k + 1;
        }
        proof {
            assert(ds.skip(ds.len() as int) =~= Seq::<FnDeclV>::empty());
        }
        Ok(())
    }

    /// Translate one function declaration: build its signature and entry
    /// block, allocate storage for its locals, translate the body, seal
    /// the blocks, and declare and define the function on the module with
    /// `Export` linkage under its source name.
    #[verifier::loop_isolation(false)]
    fn translate_decl(&mut self, fn_map: &FnTable, node: &FnDecl) -> (r: Result<(), TransError>)
        ensures
            ({
                let r0 = tr_decl(fns_view(*fn_map), decl_view(*node), module_view(old(self).module));
                match r {
                    Ok(()) => r0 == Ok::<ModV, crate::errors::ErrV>(module_view(final(self).module)),
                    Err(e) => r0 == Err::<ModV, crate::errors::ErrV>(crate::errors::err_view(e)),
                }
            }),
    {
        let ghost dv = decl_view(*node);
        let ghost fns = fns_view(*fn_map);
        let ghost m1 = module_view(self.module);

        // The function signature the declaration induces.
        let mut params: Vec<IrType> = Vec::new();
        let mut i: usize = 0;
        while i < node.args.len()
            invariant
                0 <= i <= node.args@.len(),
                dv.args.len() == node.args@.len(),
                forall|j: int|
                    0 <= j < node.args@.len() ==> dv.args[j] == crate::ast::arg_view(
                        node.args@[j],
                    ),
                params@.len() == i,
                forall|j: int|
                    0 <= j < i ==> params@[j] == crate::ir::spec_value_type(dv.args[j].t),
            decreases node.args@.len() - i,
        {
            params.push(value_type(&node.args[i].t));
            i = i + 1;
        }
        let mut rets: Vec<IrType> = Vec::new();
        rets.push(value_type(&node.ret_type));
        let sig = Sig { params, returns: rets };
        proof {
            assert(sig_view(sig).params =~= spec_user_sig(dv).params);
            assert(sig_view(sig).returns =~= spec_user_sig(dv).returns);
            assert(sig_view(sig) =~~= spec_user_sig(dv));
        }

        // The entry block and its parameter values.
        let mut builder = FuncIr::new();
        let entry_block = builder.create_block();
        builder.switch_to_block(entry_block);
        proof {
            assert(func_view(builder).blocks =~= entry_state().blocks);
            assert(func_view(builder) =~~= entry_state());
            assert(sig.params@.skip(0) =~= sig.params@);
        }
        let mut vals: Vec<usize> = Vec::new();
        let mut j: usize = 0;
        while j < sig.params.len()
            invariant
                0 <= j <= sig.params@.len(),
                func_view(builder).blocks.len() == 1,
                func_view(builder).cur == 0,
                entry_block == 0,
                func_view(builder).value_types.len() == j,
                vals@.len() == j,
                forall|j2: int| 0 <= j2 < j ==> vals@[j2] == j2,
                spec_append_params(entry_state(), 0, sig.params@) == spec_append_params(
                    func_view(builder),
                    0,
                    sig.params@.skip(j as int),
                ),
            decreases sig.params@.len() - j,
        {
            proof {
                assert(sig.params@.skip(j as int)[0] == sig.params@[j as int]);
                assert(sig.params@.skip(j as int).drop_first() =~= sig.params@.skip(j + 1));
            }
            let ghost st_pre = func_view(builder);
            let v = builder.append_block_param(entry_block, sig.params[j]);
            vals.push(v);
            proof {
                let tys = sig.params@.skip(j as int);
                assert(func_view(builder) =~~= (StV {
                    value_types: st_pre.value_types.push(tys[0]),
                    blocks: st_pre.blocks.update(
                        0,
                        crate::ir::BlockV {
                            params: st_pre.blocks[0].params.push(st_pre.next_value()),
                            ..st_pre.blocks[0]
                        },
                    ),
                    ..st_pre
                }));
            }
            j = j + 1;
        }
        proof {
            assert(sig.params@.skip(sig.params@.len() as int) =~= Seq::<IrType>::empty());
            assert(vals@ =~= Seq::new(dv.args.len(), |i2: int| i2 as usize));
        }

        // Storage for every local.
        let variables = match declare_variables(node, &mut builder, &vals) {
            Ok(v) => v,
            Err(e) => {
                return Err(e);
            },
        };

        // The body, statement by statement, in source order.
        let mut translator = FunctionTranslator::new(fn_map, builder, variables);
        let ghost tv = table_view(translator.variables);
        let ghost st1 = func_view(translator.builder);
        let ghost bodyv = stmts_view(node.body@);
        proof {
            lemma_stmts_view_len(node.body@);
            assert(bodyv.skip(0) =~= bodyv);
        }
        let mut k: usize = 0;
        while k < node.body.len()
            invariant
                func_view(translator.builder).cur_ok(),
                translator.functions == fn_map,
                fns == fns_view(*translator.functions),
                tv == table_view(translator.variables),
                0 <= k <= node.body@.len(),
                bodyv.len() == node.body@.len(),
                forall|j2: int|
                    0 <= j2 < node.body@.len() ==> bodyv[j2] == crate::ast::stmt_view(
                        node.body@[j2],
                    ),
                tr_stmts(fns, tv, bodyv, st1, m1) == tr_stmts(
                    fns,
                    tv,
                    bodyv.skip(k as int),
                    func_view(translator.builder),
                    module_view(self.module),
                ),
            decreases node.body@.len() - k,
        {
            proof {
                assert(bodyv.skip(k as int)[0] == bodyv[k as int]);
                assert(bodyv.skip(k as int).drop_first() =~= bodyv.skip(k + 1));
                lemma_tr_stmt_props(
                    fns,
                    tv,
                    bodyv[k as int],
                    func_view(translator.builder),
                    module_view(self.module),
                );
            }
            match translator.translate_stmt(&mut self.module, &node.body[k]) {
                Ok(_) => {},
                Err(e) => {
                    return Err(e);
                },
            }
            k = k + 1;
        }
        proof {
            assert(bodyv.skip(node.body@.len() as int) =~= Seq::<StmtV>::empty());
        }

        // Seal everything and attach the finished body to the module.
        translator.builder.seal_all_blocks();
        let ghost st2 = tr_stmts(fns, tv, bodyv, st1, m1)->Ok_0.0;
        proof {
            assert(func_view(translator.builder).blocks =~~= seal_all(st2).blocks);
            assert(func_view(translator.builder) =~~= seal_all(st2));
            lemma_find_entry_props(module_view(self.module), node.name@);
        }
        let id = match self.module.declare_function(&node.name, Linkage::Export, &sig) {
            Ok(i) => i,
            Err(e) => {
                return Err(e);
            },
        };
        proof {
            assert(module_view(self.module).entries[id as int].name == node.name@);
        }
        match self.module.define_function(id, translator.builder) {
            Ok(()) => {
                proof {
                    match spec_declare(
                        tr_stmts(fns, tv, bodyv, st1, m1)->Ok_0.1,
                        node.name@,
                        Linkage::Export,
                        spec_user_sig(dv),
                    ) {
                        Ok((m3, id2)) => {
                            assert(module_view(self.module) =~~= (ModV {
                                entries: m3.entries.update(
                                    id2,
                                    EntryV {
                                        defined: true,
                                        body: Some(seal_all(st2)),
                                        ..m3.entries[id2]
                                    },
                                ),
                            }));
                        },
                        Err(_) => {},
                    }
                }
                Ok(())
            },
            Err(e) => Err(e),
        }
    }
}

impl Default for Compiler {
    /// A compiler with a fresh, empty module.
    fn default() -> (c: Self)
        ensures
            module_view(c.module).entries == Seq::<EntryV>::empty(),
    {
        Compiler::new()
    }
}

} // verus!
