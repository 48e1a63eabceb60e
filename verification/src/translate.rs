//! The AST-to-IR translator. Each method is proved to compute exactly what
//! the corresponding specification function in `semantics` says: the same
//! IR state, the same module, the same produced value, or the same
//! diagnostic.

use vstd::prelude::*;
use crate::ast::{Assignment, Call, EmptyType, Expression, FloatType, IntegerType, Literal, Local,
    Stmt, call_size, call_view, expr_size, expr_view, exprs_size, exprs_view, lemma_exprs_size_elem,
    lemma_exprs_view_len, lemma_expr_size_pos, lemma_stmts_size_elem, lemma_stmts_view_len,
    stmt_size, stmt_view, stmts_size, stmts_view};
use crate::errors::TransError;
use crate::functions::{FnTable, fns_view};
use crate::ir::{FuncIr, Inst, IrType, Linkage, ModuleIr, Sig, func_view, module_view, sig_view,
    value_type};
use crate::semantics::{ArgsOut, TrOut, expr_frame, lemma_expr_frame_trans, lemma_tr_call_frame,
    lemma_tr_expr_frame, lemma_tr_exprs_frame, lemma_tr_if_body_props, lemma_tr_stmt_props,
    spec_builtin_sig, spec_check_ptr_args, spec_find_fn, spec_user_sig, tr_assign, tr_call, tr_expr,
    tr_exprs, tr_if_body, tr_reassign, tr_stmt};
use crate::variables::{VarTable, Variable, table_view};

verus! {

/// True iff `s` spells the same characters as the literal `lit`.
fn str_is(s: &String, lit: &str) -> (r: bool)
    ensures
        r == (s@ == lit@),
{
    s.eq(&lit.to_owned())
}

/// Translates one function's AST into IR constructs, holding the
/// function-builder state and the storage map; the module is threaded
/// through each call so imports can be declared.
pub struct FunctionTranslator<'a> {
    pub functions: &'a FnTable,
    pub builder: FuncIr,
    pub variables: VarTable,
}

impl<'a> FunctionTranslator<'a> {
    pub fn new(functions: &'a FnTable, builder: FuncIr, variables: VarTable) -> (t: Self)
        ensures
            t.functions == functions,
            t.builder == builder,
            t.variables == variables,
    {
        Self { functions, builder, variables }
    }

    /// Translate one expression; on success the produced value id.
    pub fn translate_expr(&mut self, module: &mut ModuleIr, expr: &Expression) -> (r: Result<
        usize,
        TransError,
    >)
        requires
            func_view(old(self).builder).cur_ok(),
        ensures
            final(self).functions == old(self).functions,
            final(self).variables == old(self).variables,
            ({
                let r0 = tr_expr(
                    fns_view(*old(self).functions),
                    table_view(old(self).variables),
                    expr_view(*expr),
                    func_view(old(self).builder),
                    module_view(*old(module)),
                );
                match r {
                    Ok(v) => {
                        &&& r0 matches Ok(o)
                        &&& func_view(final(self).builder) == o.st
                        &&& module_view(*final(module)) == o.m
                        &&& v == o.v
                    },
                    Err(e) => r0 == Err::<TrOut, crate::errors::ErrV>(crate::errors::err_view(e)),
                }
            }),
        decreases expr_size(*expr), 1int,
{
        let ghost fns = fns_view(*self.functions);
        let ghost tv = table_view(self.variables);
        match expr {
            Expression::Call(val) => {
                let r = self.translate_call(module, val);
                r
            },
            Expression::Literal(val) => match val {
                Literal::Float(value) => {
                    let dest = self.builder.value_types.len();
                    let v = self.builder.emit_value(
                        IrType::F32,
                        Inst::Fconst { ty: IrType::F32, lexeme: value.token.clone(), dest },
                    );
                    Ok(v)
                },
                Literal::Integer(value) => match value.base10_parse() {
                    Ok(imm) => {
                        let dest = self.builder.value_types.len();
                        let v = self.builder.emit_value(
                            IrType::I32,
                            Inst::Iconst { ty: IrType::I32, imm, dest },
                        );
                        Ok(v)
                    },
                    Err(_) => Err(TransError::BadLiteral(value.token.clone())),
                },
            },
            Expression::Identifier(value) => match self.variables.get_index(value) {
                None => Err(TransError::UnknownBinding(value.clone())),
                Some(i) => {
                    let (t, is_stack, place): (IrType, bool, usize) =
                        match &self.variables.entries[i] {
                        Variable::Stack(sv) => (value_type(&sv.ty), true, sv.slot),
                        Variable::Register(rv) => (value_type(&rv.ty), false, rv.var),
                    };
                    let dest = self.builder.value_types.len();
                    if is_stack {
                        Ok(self.builder.emit_value(t, Inst::StackLoad { ty: t, slot: place, dest }))
                    } else {
                        Ok(self.builder.emit_value(t, Inst::UseVar { var: place, dest }))
                    }
                },
            },
            Expression::AddressOf(value) => match self.variables.get_index(&value.name) {
                None => Err(TransError::UnknownBinding(value.name.clone())),
                Some(i) => match &self.variables.entries[i] {
                    Variable::Stack(sv) => {
                        let slot = sv.slot;
                        let dest = self.builder.value_types.len();
                        Ok(
                            self.builder.emit_value(
                                IrType::I64,
                                Inst::StackAddr { ty: IrType::I64, slot, dest },
                            ),
                        )
                    },
                    Variable::Register(_) => Err(TransError::AddressOfRegister(value.name.clone())),
                },
            },
            Expression::DeRef(value) => match self.variables.get_index(value) {
                None => Err(TransError::UnknownBinding(value.clone())),
                Some(i) => {
                    let info: Option<(IrType, usize)> = match &self.variables.entries[i] {
                        Variable::Stack(sv) => match &sv.ty {
                            EmptyType::Pointer(p) => Some((value_type(&p.ty), sv.slot)),
                            _ => None,
                        },
                        Variable::Register(_) => None,
                    };
                    match info {
                        None => Err(TransError::BadDeref(value.clone())),
                        Some((pt, slot)) => {
                            let dest = self.builder.value_types.len();
                            let ptr = self.builder.emit_value(
                                IrType::I64,
                                Inst::StackLoad { ty: IrType::I64, slot, dest },
                            );
                            proof {
                                crate::semantics::lemma_emit_value_frame(
                                    func_view(old(self).builder),
                                    IrType::I64,
                                    crate::ir::InstV::StackLoad {
                                        ty: IrType::I64,
                                        slot,
                                        dest: func_view(old(self).builder).next_value(),
                                    },
                                );
                            }
                            let dest2 = self.builder.value_types.len();
                            let v = self.builder.emit_value(
                                pt,
                                Inst::LoadMem { ty: pt, addr: ptr, dest: dest2 },
                            );
                            Ok(v)
                        },
                    }
                },
            },
        }
    }

    /// Translate a call: fix the expected signature, check pointer
    /// mutability of address-of arguments against the formals, translate
    /// the arguments, compare signatures, declare the callee as an import,
    /// and emit the call.
    #[verifier::loop_isolation(false)]
    pub fn translate_call(&mut self, module: &mut ModuleIr, expr: &Call) -> (r: Result<
        usize,
        TransError,
    >)
        requires
            func_view(old(self).builder).cur_ok(),
        ensures
            final(self).functions == old(self).functions,
            final(self).variables == old(self).variables,
            ({
                let r0 = tr_call(
                    fns_view(*old(self).functions),
                    table_view(old(self).variables),
                    call_view(*expr),
                    func_view(old(self).builder),
                    module_view(*old(module)),
                );
                match r {
                    Ok(v) => {
                        &&& r0 matches Ok(o)
                        &&& func_view(final(self).builder) == o.st
                        &&& module_view(*final(module)) == o.m
                        &&& v == o.v
                    },
                    Err(e) => r0 == Err::<TrOut, crate::errors::ErrV>(crate::errors::err_view(e)),
                }
            }),
        decreases call_size(*expr), 0int,
{
        let ghost fns = fns_view(*self.functions);
        let ghost tv = table_view(self.variables);
        let ghost av = exprs_view(expr.args@);
        proof {
            lemma_exprs_view_len(expr.args@);
        }

        // The expected signature: builtin table first, then user functions.
        let mut expected_params: Vec<IrType> = Vec::new();
        let mut expected_returns: Vec<IrType> = Vec::new();
        if str_is(&expr.func, "iadd") || str_is(&expr.func, "isub") || str_is(&expr.func, "idiv")
            || str_is(&expr.func, "imul") || str_is(&expr.func, "ieq") || str_is(
            &expr.func,
            "ilteq",
        ) || str_is(&expr.func, "ilt") || str_is(&expr.func, "imod") {
            expected_params.push(IrType::I32);
            expected_params.push(IrType::I32);
            expected_returns.push(IrType::I32);
            proof {
                assert(expected_params@ =~= seq![IrType::I32, IrType::I32]);
                assert(expected_returns@ =~= seq![IrType::I32]);
            }
        } else if str_is(&expr.func, "println") || str_is(&expr.func, "print") {
            expected_params.push(IrType::I32);
            expected_returns.push(IrType::I32);
            proof {
                assert(expected_params@ =~= seq![IrType::I32]);
                assert(expected_returns@ =~= seq![IrType::I32]);
            }
        } else if str_is(&expr.func, "print_addr") {
            expected_params.push(IrType::I64);
            expected_returns.push(IrType::I64);
            proof {
                assert(expected_params@ =~= seq![IrType::I64]);
                assert(expected_returns@ =~= seq![IrType::I64]);
            }
        } else {
            let func = match self.functions.find(&expr.func) {
                None => {
                    return Err(TransError::UnknownCallee(expr.func.clone()));
                },
                Some(f) => f,
            };
            let ghost fv = crate::ast::decl_view(*func);
            proof {
                crate::ast::lemma_stmts_view_len(func.body@);
            }

            // Check pointer mutability of address-of arguments.
            let mut i: usize = 0;
            while i < expr.args.len()
                invariant
                    0 <= i <= expr.args@.len(),
                    av.len() == expr.args@.len(),
                    forall|k: int| 0 <= k < av.len() ==> av[k] == expr_view(expr.args@[k]),
                    fv.args.len() == func.args@.len(),
                    forall|k: int|
                        0 <= k < fv.args.len() ==> fv.args[k] == crate::ast::arg_view(
                            func.args@[k],
                        ),
                    spec_check_ptr_args(fv.args, av, 0) == spec_check_ptr_args(
                        fv.args,
                        av,
                        i as int,
                    ),
                decreases expr.args@.len() - i,
            {
                match &expr.args[i] {
                    Expression::AddressOf(param_expr) => {
                        if i < func.args.len() {
                            match &func.args[i].t {
                                EmptyType::Pointer(ptr) => {
                                    if param_expr.mutable && !ptr.mutable {
                                        return Err(
                                            TransError::PointerMutabilityMismatch {
                                                name: param_expr.name.clone(),
                                                expected_mutable: false,
                                            },
                                        );
                                    }
                                    if ptr.mutable && !param_expr.mutable {
                                        return Err(
                                            TransError::PointerMutabilityMismatch {
                                                name: param_expr.name.clone(),
                                                expected_mutable: true,
                                            },
                                        );
                                    }
                                },
                                _ => {},
                            }
                        }
                    },
                    _ => {},
                }
                i = i + 1;
            }

            // The signature the declaration induces.
            let mut j: usize = 0;
            while j < func.args.len()
                invariant
                    0 <= j <= func.args@.len(),
                    fv.args.len() == func.args@.len(),
                    forall|k: int|
                        0 <= k < fv.args.len() ==> fv.args[k] == crate::ast::arg_view(
                            func.args@[k],
                        ),
                    expected_params@.len() == j,
                    forall|k: int|
                        0 <= k < j ==> expected_params@[k] == crate::ir::spec_value_type(
                            fv.args[k].t,
                        ),
                decreases func.args@.len() - j,
            {
                expected_params.push(value_type(&func.args[j].t));
                j = j + 1;
            }
            expected_returns.push(value_type(&func.ret_type));
            proof {
                assert(expected_params@ =~= spec_user_sig(fv).params);
                assert(expected_returns@ =~= spec_user_sig(fv).returns);
            }
        }
        let ghost sig = crate::ir::SigV { params: expected_params@, returns: expected_returns@ };
        proof {
            match spec_builtin_sig(expr.func@) {
                Some(s2) => {
                    assert(s2 =~~= sig);
                },
                None => {
                    match spec_find_fn(fns, expr.func@) {
                        Some(f2) => {
                            assert(spec_user_sig(f2).params =~= sig.params);
                            assert(spec_user_sig(f2).returns =~= sig.returns);
                            assert(spec_user_sig(f2) =~~= sig);
                        },
                        None => {},
                    }
                },
            }
        }

        // Translate the arguments left to right, recording their IR types.
        let ghost st0 = func_view(self.builder);
        let ghost m0 = module_view(*module);
        proof {
            assert(av.skip(0) =~= av);
        }
        let mut arg_values: Vec<usize> = Vec::new();
        let mut params: Vec<IrType> = Vec::new();
        let mut k: usize = 0;
        while k < expr.args.len()
            invariant
                func_view(self.builder).cur_ok(),
                self.functions == old(self).functions,
                self.variables == old(self).variables,
                fns == fns_view(*self.functions),
                tv == table_view(self.variables),
                0 <= k <= expr.args@.len(),
                av.len() == expr.args@.len(),
                forall|k2: int| 0 <= k2 < av.len() ==> av[k2] == expr_view(expr.args@[k2]),
                exprs_size(expr.args@) <= call_size(*expr),
                arg_values@.len() == k,
                params@.len() == k,
                expr_frame(st0, func_view(self.builder)),
                forall|k2: int|
                    0 <= k2 < k ==> arg_values@[k2] < func_view(self.builder).value_types.len(),
                forall|k2: int|
                    0 <= k2 < k ==> params@[k2] == func_view(self.builder).value_types[
                        arg_values@[k2] as int
                    ],
                ({
                    let full = tr_exprs(fns, tv, av, st0, m0);
                    let rest = tr_exprs(
                        fns,
                        tv,
                        av.skip(k as int),
                        func_view(self.builder),
                        module_view(*module),
                    );
                    match full {
                        Ok(o) => {
                            &&& rest matches Ok(r2)
                            &&& o.st == r2.st
                            &&& o.m == r2.m
                            &&& o.vals == arg_values@ + r2.vals
                        },
                        Err(e) => rest == Err::<ArgsOut, crate::errors::ErrV>(e),
                    }
                }),
            decreases expr.args@.len() - k,
        {
            proof {
                assert(av.skip(k as int)[0] == av[k as int]);
                assert(av.skip(k as int).drop_first() =~= av.skip(k + 1));
                lemma_exprs_size_elem(expr.args@, k as int);
                lemma_tr_expr_frame(fns, tv, av[k as int], func_view(self.builder), module_view(*module));
            }
            let ghost st_pre = func_view(self.builder);
            let func_arg = match self.translate_expr(module, &expr.args[k]) {
                Ok(v) => v,
                Err(e) => {
                    return Err(e);
                },
            };
            proof {
                lemma_expr_frame_trans(st0, st_pre, func_view(self.builder));
            }
            let arg_type = self.builder.value_types[func_arg];
            params.push(arg_type);
            arg_values.push(func_arg);
            proof {
                match tr_exprs(fns, tv, av, st0, m0) {
                    Ok(o) => {
                        assert(o.vals =~= (arg_values@ + tr_exprs(
                            fns,
                            tv,
                            av.skip(k + 1),
                            func_view(self.builder),
                            module_view(*module),
                        )->Ok_0.vals));
                    },
                    Err(_) => {},
                }
            }
            k = k + 1;
        }
        proof {
            assert(av.skip(av.len() as int) =~= Seq::<crate::ast::ExprV>::empty());
            match tr_exprs(fns, tv, av, st0, m0) {
                Ok(o) => {
                    assert(o.vals =~= arg_values@);
                },
                Err(_) => {},
            }
        }

        // The argument types must match the expected parameters exactly.
        let ghost o = tr_exprs(fns, tv, av, st0, m0)->Ok_0;
        proof {
            assert(params@ =~= o.vals.map_values(
                |v: usize| o.st.value_types[v as int],
            ));
        }
        if !crate::ir::ir_types_eq(&params, &expected_params) {
            return Err(TransError::SignatureMismatch { func: expr.func.clone() });
        }

        // Declare the callee on the module (idempotent by name) and emit.
        let sig_actual = Sig { params, returns: expected_returns };
        proof {
            assert(sig_view(sig_actual) =~= sig);
        }
        match module.declare_function(&expr.func, Linkage::Import, &sig_actual) {
            Ok(_id) => {},
            Err(e) => {
                return Err(e);
            },
        }
        let ret_ty = sig_actual.returns[0];
        let dest = self.builder.value_types.len();
        let call_v = self.builder.emit_value(
            ret_ty,
            Inst::CallFn { callee: expr.func.clone(), args: arg_values, dest },
        );
        Ok(call_v)
    }

    /// Translate one statement.
    pub fn translate_stmt(&mut self, module: &mut ModuleIr, stmt: &Stmt) -> (r: Result<
        usize,
        TransError,
    >)
        requires
            func_view(old(self).builder).cur_ok(),
        ensures
            final(self).functions == old(self).functions,
            final(self).variables == old(self).variables,
            ({
                let r0 = tr_stmt(
                    fns_view(*old(self).functions),
                    table_view(old(self).variables),
                    stmt_view(*stmt),
                    func_view(old(self).builder),
                    module_view(*old(module)),
                );
                match r {
                    Ok(v) => {
                        &&& r0 matches Ok(o)
                        &&& func_view(final(self).builder) == o.st
                        &&& module_view(*final(module)) == o.m
                        &&& v == o.v
                    },
                    Err(e) => r0 == Err::<TrOut, crate::errors::ErrV>(crate::errors::err_view(e)),
                }
            }),
        decreases stmt_size(*stmt), 1int,
    {
        match stmt {
            Stmt::Assign(a) => self.translate_assign(module, a),
            Stmt::If(condition, body) => self.translate_if(module, condition, body),
            Stmt::Return(e) => self.translate_return(module, e),
            Stmt::Call(c) => {
                let r = self.translate_call(module, c);
                r
            },
            Stmt::ReAssign(l) => self.translate_reassign(module, l),
        }
    }

    /// Translate a `return`: the value, then the return instruction. The
    /// caller stops translating the rest of the block on this path.
    pub fn translate_return(&mut self, module: &mut ModuleIr, expr: &Expression) -> (r: Result<
        usize,
        TransError,
    >)
        requires
            func_view(old(self).builder).cur_ok(),
        ensures
            final(self).functions == old(self).functions,
            final(self).variables == old(self).variables,
            ({
                let r0 = tr_stmt(
                    fns_view(*old(self).functions),
                    table_view(old(self).variables),
                    crate::ast::StmtV::Return(expr_view(*expr)),
                    func_view(old(self).builder),
                    module_view(*old(module)),
                );
                match r {
                    Ok(v) => {
                        &&& r0 matches Ok(o)
                        &&& func_view(final(self).builder) == o.st
                        &&& module_view(*final(module)) == o.m
                        &&& v == o.v
                    },
                    Err(e) => r0 == Err::<TrOut, crate::errors::ErrV>(crate::errors::err_view(e)),
                }
            }),
        decreases expr_size(*expr), 2int,
    {
        let ghost fns = fns_view(*self.functions);
        let ghost tv = table_view(self.variables);
        proof {
            lemma_tr_expr_frame(fns, tv, expr_view(*expr), func_view(self.builder), module_view(*module));
        }
        let value = match self.translate_expr(module, expr) {
            Ok(v) => v,
            Err(e) => {
                return Err(e);
            },
        };
        self.builder.emit(Inst::Ret { value });
        Ok(value)
    }

    /// Translate a reassignment: the value first, then the mutability
    /// check on the target, then the store or register redefinition.
    pub fn translate_reassign(&mut self, module: &mut ModuleIr, expr: &Local) -> (r: Result<
        usize,
        TransError,
    >)
        requires
            func_view(old(self).builder).cur_ok(),
        ensures
            final(self).functions == old(self).functions,
            final(self).variables == old(self).variables,
            ({
                let r0 = tr_reassign(
                    fns_view(*old(self).functions),
                    table_view(old(self).variables),
                    crate::ast::local_view(*expr),
                    func_view(old(self).builder),
                    module_view(*old(module)),
                );
                match r {
                    Ok(v) => {
                        &&& r0 matches Ok(o)
                        &&& func_view(final(self).builder) == o.st
                        &&& module_view(*final(module)) == o.m
                        &&& v == o.v
                    },
                    Err(e) => r0 == Err::<TrOut, crate::errors::ErrV>(crate::errors::err_view(e)),
                }
            }),
        decreases expr_size(expr.value), 2int,
    {
        let ghost fns = fns_view(*self.functions);
        let ghost tv = table_view(self.variables);
        proof {
            lemma_tr_expr_frame(
                fns,
                tv,
                expr_view(expr.value),
                func_view(self.builder),
                module_view(*module),
            );
        }
        let value = match self.translate_expr(module, &expr.value) {
            Ok(v) => v,
            Err(e) => {
                return Err(e);
            },
        };
        let name = &expr.target.ident;
        match self.variables.get_index(name) {
            None => Err(TransError::UnknownBinding(name.clone())),
            Some(i) => match &self.variables.entries[i] {
                Variable::Register(rv) => {
                    if !rv.mutable {
                        return Err(TransError::ImmutableAssign(name.clone()));
                    }
                    let var = rv.var;
                    self.builder.emit(Inst::DefVar { var, value });
                    Ok(value)
                },
                Variable::Stack(sv) => {
                    if !sv.mutable {
                        return Err(TransError::ImmutableAssign(name.clone()));
                    }
                    let slot = sv.slot;
                    self.builder.emit(Inst::StackStore { value, slot });
                    Ok(value)
                },
            },
        }
    }

    /// Translate a declaration with initializer: compute the value under
    /// the typing rules, check its IR type against the declared type's
    /// width, and store it into the binding's slot.
    pub fn translate_assign(&mut self, module: &mut ModuleIr, expr: &Assignment) -> (r: Result<
        usize,
        TransError,
    >)
        requires
            func_view(old(self).builder).cur_ok(),
        ensures
            final(self).functions == old(self).functions,
            final(self).variables == old(self).variables,
            ({
                let r0 = tr_assign(
                    fns_view(*old(self).functions),
                    table_view(old(self).variables),
                    crate::ast::assign_view(*expr),
                    func_view(old(self).builder),
                    module_view(*old(module)),
                );
                match r {
                    Ok(v) => {
                        &&& r0 matches Ok(o)
                        &&& func_view(final(self).builder) == o.st
                        &&& module_view(*final(module)) == o.m
                        &&& v == o.v
                    },
                    Err(e) => r0 == Err::<TrOut, crate::errors::ErrV>(crate::errors::err_view(e)),
                }
            }),
        decreases expr_size(expr.value), 2int,
    {
        let ghost fns = fns_view(*self.functions);
        let ghost tv = table_view(self.variables);
        let name = &expr.target.ident;
        let idx = match self.variables.get_index(name) {
            None => {
                return Err(TransError::UnknownBinding(name.clone()));
            },
            Some(i) => i,
        };
        let (vty, is_stack, slot, _mutable): (EmptyType, bool, usize, bool) =
            match &self.variables.entries[idx] {
            Variable::Stack(sv) => (sv.ty.clone_type(), true, sv.slot, sv.mutable),
            Variable::Register(rv) => (rv.ty.clone_type(), false, 0, rv.mutable),
        };

        let value: usize = match &expr.value {
            Expression::Literal(Literal::Float(val)) => match &vty {
                EmptyType::Float(FloatType::F32) => {
                    let dest = self.builder.value_types.len();
                    self.builder.emit_value(
                        IrType::F32,
                        Inst::Fconst { ty: IrType::F32, lexeme: val.token.clone(), dest },
                    )
                },
                EmptyType::Float(FloatType::F64) => {
                    let dest = self.builder.value_types.len();
                    self.builder.emit_value(
                        IrType::F64,
                        Inst::Fconst { ty: IrType::F64, lexeme: val.token.clone(), dest },
                    )
                },
                _ => {
                    return Err(
                        TransError::TypeMismatch {
                            expected: value_type(&vty),
                            actual: IrType::F32,
                        },
                    );
                },
            },
            Expression::Literal(Literal::Integer(val)) => {
                let width: Option<IrType> = match &vty {
                    EmptyType::Integer(IntegerType::I32) => Some(IrType::I32),
                    EmptyType::Integer(IntegerType::I64) => Some(IrType::I64),
                    EmptyType::Integer(IntegerType::PointerSize) => Some(IrType::I64),
                    EmptyType::Pointer(_) => Some(IrType::I64),
                    _ => None,
                };
                match width {
                    None => {
                        return Err(
                            TransError::TypeMismatch {
                                expected: value_type(&vty),
                                actual: IrType::I32,
                            },
                        );
                    },
                    Some(w) => match val.base10_parse() {
                        Ok(imm) => {
                            let dest = self.builder.value_types.len();
                            self.builder.emit_value(w, Inst::Iconst { ty: w, imm, dest })
                        },
                        Err(_) => {
                            return Err(TransError::BadLiteral(val.token.clone()));
                        },
                    },
                }
            },
            Expression::AddressOf(addr_of) => {
                let tgt_mutable: bool = match self.variables.get_index(&addr_of.name) {
                    None => {
                        return Err(TransError::UnknownBinding(addr_of.name.clone()));
                    },
                    Some(j) => match &self.variables.entries[j] {
                        Variable::Stack(sv) => sv.mutable,
                        Variable::Register(rv) => rv.mutable,
                    },
                };
                let bad = match &expr.var_type {
                    EmptyType::Pointer(p) => p.mutable && !tgt_mutable,
                    _ => false,
                };
                if bad {
                    return Err(
                        TransError::PointerMutabilityMismatch {
                            name: addr_of.name.clone(),
                            expected_mutable: true,
                        },
                    );
                }
                proof {
                    lemma_tr_expr_frame(
                        fns,
                        tv,
                        expr_view(expr.value),
                        func_view(self.builder),
                        module_view(*module),
                    );
                }
                match self.translate_expr(module, &expr.value) {
                    Ok(v) => v,
                    Err(e) => {
                        return Err(e);
                    },
                }
            },
            _ => {
                proof {
                    lemma_tr_expr_frame(
                        fns,
                        tv,
                        expr_view(expr.value),
                        func_view(self.builder),
                        module_view(*module),
                    );
                }
                match self.translate_expr(module, &expr.value) {
                    Ok(v) => v,
                    Err(e) => {
                        return Err(e);
                    },
                }
            },
        };

        if !is_stack {
            return Err(TransError::RegisterAssign(name.clone()));
        }
        let actual_ty = self.builder.value_types[value];
        let expected_ty = value_type(&vty);
        if actual_ty != expected_ty {
            return Err(TransError::TypeMismatch { expected: expected_ty, actual: actual_ty });
        }
        self.builder.emit(Inst::StackStore { value, slot });
        Ok(value)
    }

    /// Translate an `if`: branch on the condition being nonzero into a
    /// fresh `then` block or past it to the merge block. A `return` inside
    /// the body ends it: the remaining body statements are skipped.
    #[verifier::loop_isolation(false)]
    pub fn translate_if(
        &mut self,
        module: &mut ModuleIr,
        condition: &Expression,
        if_body: &Vec<Stmt>,
    ) -> (r: Result<usize, TransError>)
        requires
            func_view(old(self).builder).cur_ok(),
        ensures
            final(self).functions == old(self).functions,
            final(self).variables == old(self).variables,
            ({
                let r0 = tr_stmt(
                    fns_view(*old(self).functions),
                    table_view(old(self).variables),
                    crate::ast::StmtV::If(expr_view(*condition), stmts_view(if_body@)),
                    func_view(old(self).builder),
                    module_view(*old(module)),
                );
                match r {
                    Ok(v) => {
                        &&& r0 matches Ok(o)
                        &&& func_view(final(self).builder) == o.st
                        &&& module_view(*final(module)) == o.m
                        &&& v == o.v
                    },
                    Err(e) => r0 == Err::<TrOut, crate::errors::ErrV>(crate::errors::err_view(e)),
                }
            }),
        decreases expr_size(*condition) + stmts_size(if_body@), 2int,
    {
        let ghost fns = fns_view(*self.functions);
        let ghost tv = table_view(self.variables);
        let ghost bodyv = stmts_view(if_body@);
        proof {
            lemma_stmts_view_len(if_body@);
        }
        let then_block = self.builder.create_block();
        let merge_block = self.builder.create_block();
        proof {
            assert(func_view(self.builder).blocks =~= func_view(old(self).builder).blocks.push(
                crate::semantics::empty_block(),
            ).push(crate::semantics::empty_block()));
            lemma_tr_expr_frame(
                fns,
                tv,
                expr_view(*condition),
                func_view(self.builder),
                module_view(*module),
            );
        }
        let cond = match self.translate_expr(module, condition) {
            Ok(v) => v,
            Err(e) => {
                return Err(e);
            },
        };
        self.builder.emit(Inst::Brif { cond, then_block, else_block: merge_block });
        self.builder.switch_to_block(then_block);
        self.builder.seal_block(then_block);
        let ghost st5 = func_view(self.builder);
        let ghost m5 = module_view(*module);
        proof {
            assert(bodyv.skip(0) =~= bodyv);
        }
        let mut k: usize = 0;
        while k < if_body.len()
            invariant
                func_view(self.builder).cur_ok(),
                merge_block < func_view(self.builder).blocks.len(),
                self.functions == old(self).functions,
                self.variables == old(self).variables,
                fns == fns_view(*self.functions),
                tv == table_view(self.variables),
                0 <= k <= if_body@.len(),
                bodyv.len() == if_body@.len(),
                forall|j: int| 0 <= j < if_body@.len() ==> bodyv[j] == stmt_view(if_body@[j]),
                tr_if_body(fns, tv, bodyv, st5, m5, merge_block) == tr_if_body(
                    fns,
                    tv,
                    bodyv.skip(k as int),
                    func_view(self.builder),
                    module_view(*module),
                    merge_block,
                ),
            decreases if_body@.len() - k,
        {
            proof {
                assert(bodyv.skip(k as int)[0] == bodyv[k as int]);
                assert(bodyv.skip(k as int).drop_first() =~= bodyv.skip(k + 1));
                lemma_stmts_size_elem(if_body@, k as int);
                lemma_expr_size_pos(*condition);
                lemma_tr_stmt_props(
                    fns,
                    tv,
                    bodyv[k as int],
                    func_view(self.builder),
                    module_view(*module),
                );
            }
            let stmt = &if_body[k];
            let is_ret = matches!(stmt, Stmt::Return(_));
            match self.translate_stmt(module, stmt) {
                Ok(_) => {},
                Err(e) => {
                    return Err(e);
                },
            }
            if is_ret {
                self.builder.switch_to_block(merge_block);
                self.builder.seal_block(merge_block);
                let dest = self.builder.value_types.len();
                let v = self.builder.emit_value(
                    IrType::I32,
                    Inst::Iconst { ty: IrType::I32, imm: 0, dest },
                );
                return Ok(v);
            }
            k = k + 1;
        }
        proof {
            assert(bodyv.skip(if_body@.len() as int) =~= Seq::<crate::ast::StmtV>::empty());
        }
        self.builder.emit(Inst::Jump { block: merge_block });
        self.builder.switch_to_block(merge_block);
        self.builder.seal_block(merge_block);
        let dest = self.builder.value_types.len();
        let v = self.builder.emit_value(IrType::I32, Inst::Iconst { ty: IrType::I32, imm: 0, dest });
        Ok(v)
    }
}

} // verus!
