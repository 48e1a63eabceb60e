//! What the translator computes, stated mathematically: a step-by-step
//! account of the IR state and module after translating each expression,
//! statement, declaration, and program, or the exact diagnostic on which
//! translation stops. The executable translator is proved equal to these
//! functions.

use vstd::prelude::*;
use crate::ast::{ArgV, AssignV, CallV, EmptyType, ExprV, FloatType, FnDeclV, IntegerType, LitV,
    LocalV, StmtV, spec_base10_parse};
use crate::errors::ErrV;
use crate::ir::{BlockV, EntryV, InstV, IrType, Linkage, ModV, SigV, StV, spec_declare,
    spec_value_type};
use crate::variables::{VarV, spec_declare_variables, spec_lookup};

verus! {

// ---------------------------------------------------------------------------
// Signatures: builtins and user functions.
// ---------------------------------------------------------------------------

/// The closed builtin table: arithmetic and comparison helpers on `i32`,
/// printing on `i32`, and address printing on `i64`.
pub open spec fn spec_builtin_sig(name: Seq<char>) -> Option<SigV> {
    if name == "iadd"@ || name == "isub"@ || name == "idiv"@ || name == "imul"@ || name == "ieq"@
        || name == "ilteq"@ || name == "ilt"@ || name == "imod"@ {
        Some(SigV { params: seq![IrType::I32, IrType::I32], returns: seq![IrType::I32] })
    } else if name == "println"@ || name == "print"@ {
        Some(SigV { params: seq![IrType::I32], returns: seq![IrType::I32] })
    } else if name == "print_addr"@ {
        Some(SigV { params: seq![IrType::I64], returns: seq![IrType::I64] })
    } else {
        None
    }
}

/// The IR signature a user function declaration induces.
pub open spec fn spec_user_sig(f: FnDeclV) -> SigV {
    SigV {
        params: f.args.map_values(|a: ArgV| spec_value_type(a.t)),
        returns: seq![spec_value_type(f.ret_type)],
    }
}

/// The last declaration carrying `name`, if any: a later declaration of a
/// name shadows an earlier one.
pub open spec fn spec_find_fn(fns: Seq<FnDeclV>, name: Seq<char>) -> Option<FnDeclV>
    decreases fns.len(),
{
    if fns.len() == 0 {
        None
    } else if fns.last().name == name {
        Some(fns.last())
    } else {
        spec_find_fn(fns.drop_last(), name)
    }
}

/// The mutability pre-check on a user call: where a formal parameter is a
/// pointer type and the actual argument is an address-of, the two
/// mutability flags must agree. The first disagreement, scanned left to
/// right, is the diagnostic.
pub open spec fn spec_check_ptr_args(formals: Seq<ArgV>, actuals: Seq<ExprV>, i: int) -> Option<
    ErrV,
>
    decreases actuals.len() - i,
{
    if i < 0 || i >= actuals.len() {
        None
    } else {
        let step = match actuals[i] {
            ExprV::AddressOf(name, m) => {
                if i < formals.len() {
                    match formals[i].t {
                        EmptyType::Pointer(p) => {
                            if m && !p.mutable {
                                Some(
                                    ErrV::PointerMutabilityMismatch {
                                        name,
                                        expected_mutable: false,
                                    },
                                )
                            } else if p.mutable && !m {
                                Some(
                                    ErrV::PointerMutabilityMismatch { name, expected_mutable: true },
                                )
                            } else {
                                None
                            }
                        },
                        _ => None,
                    }
                } else {
                    None
                }
            },
            _ => None,
        };
        if step is Some {
            step
        } else {
            spec_check_ptr_args(formals, actuals, i + 1)
        }
    }
}

// ---------------------------------------------------------------------------
// Small state helpers.
// ---------------------------------------------------------------------------

/// The outcome of translating one expression or statement: the IR state,
/// the module, and the produced value id.
#[verifier::ext_equal]
pub struct TrOut {
    pub st: StV,
    pub m: ModV,
    pub v: usize,
}

/// The outcome of translating an argument list.
#[verifier::ext_equal]
pub struct ArgsOut {
    pub st: StV,
    pub m: ModV,
    pub vals: Seq<usize>,
}

pub open spec fn out_val(st: StV, m: ModV, ty: IrType, i: InstV) -> TrOut {
    TrOut { st: st.emit_value(ty, i), m, v: st.next_value() }
}

/// An integer constant of width `ty` from a decimal lexeme.
pub open spec fn int_const(st: StV, m: ModV, ty: IrType, lex: Seq<char>) -> Result<TrOut, ErrV> {
    match spec_base10_parse(lex) {
        Ok(v) => Ok(out_val(st, m, ty, InstV::Iconst { ty, imm: v, dest: st.next_value() })),
        Err(_) => Err(ErrV::BadLiteral(lex)),
    }
}

pub open spec fn empty_block() -> BlockV {
    BlockV { params: Seq::empty(), insts: Seq::empty(), sealed: false }
}

pub open spec fn seal(st: StV, b: usize) -> StV {
    StV { blocks: st.blocks.update(b as int, BlockV { sealed: true, ..st.blocks[b as int] }), ..st }
}

pub open spec fn seal_all(st: StV) -> StV {
    StV { blocks: Seq::new(st.blocks.len(), |i: int| BlockV { sealed: true, ..st.blocks[i] }), ..st }
}

// ---------------------------------------------------------------------------
// Expression translation.
// ---------------------------------------------------------------------------

/// The IR effect of one expression: constants default to 32 bits, an
/// identifier loads its slot or uses its register, address-of yields the
/// slot address as a pointer-size integer, dereference loads the pointer
/// then the pointee.
pub open spec fn tr_expr(fns: Seq<FnDeclV>, tv: Seq<VarV>, e: ExprV, st: StV, m: ModV) -> Result<
    TrOut,
    ErrV,
>
    decreases e,
{
    match e {
        ExprV::Call(c) => tr_call(fns, tv, c, st, m),
        ExprV::Literal(l) => match l {
            LitV::Float(lex) => Ok(
                out_val(st, m, IrType::F32, InstV::Fconst { ty: IrType::F32, lexeme: lex, dest: st.next_value() }),
            ),
            LitV::Integer(lex) => int_const(st, m, IrType::I32, lex),
        },
        ExprV::Identifier(x) => match spec_lookup(tv, x) {
            None => Err(ErrV::UnknownBinding(x)),
            Some(VarV::Stack { ty, slot, .. }) => Ok(
                out_val(
                    st,
                    m,
                    spec_value_type(ty),
                    InstV::StackLoad { ty: spec_value_type(ty), slot, dest: st.next_value() },
                ),
            ),
            Some(VarV::Register { ty, var, .. }) => Ok(
                out_val(st, m, spec_value_type(ty), InstV::UseVar { var, dest: st.next_value() }),
            ),
        },
        ExprV::AddressOf(x, _mf) => match spec_lookup(tv, x) {
            None => Err(ErrV::UnknownBinding(x)),
            Some(VarV::Stack { slot, .. }) => Ok(
                out_val(st, m, IrType::I64, InstV::StackAddr { ty: IrType::I64, slot, dest: st.next_value() }),
            ),
            Some(VarV::Register { .. }) => Err(ErrV::AddressOfRegister(x)),
        },
        ExprV::DeRef(x) => match spec_lookup(tv, x) {
            None => Err(ErrV::UnknownBinding(x)),
            Some(VarV::Register { .. }) => Err(ErrV::BadDeref(x)),
            Some(VarV::Stack { ty, slot, .. }) => match ty {
                EmptyType::Pointer(p) => {
                    let st2 = st.emit_value(IrType::I64, InstV::StackLoad { ty: IrType::I64, slot, dest: st.next_value() });
                    let ptr = st.next_value();
                    let pt = spec_value_type(p.ty);
                    Ok(
                        TrOut {
                            st: st2.emit_value(pt, InstV::LoadMem { ty: pt, addr: ptr, dest: st2.next_value() }),
                            m,
                            v: st2.next_value(),
                        },
                    )
                },
                _ => Err(ErrV::BadDeref(x)),
            },
        },
    }
}

/// Translate an argument list left to right.
pub open spec fn tr_exprs(fns: Seq<FnDeclV>, tv: Seq<VarV>, es: Seq<ExprV>, st: StV, m: ModV) -> Result<
    ArgsOut,
    ErrV,
>
    decreases es,
{
    if es.len() == 0 {
        Ok(ArgsOut { st, m, vals: Seq::empty() })
    } else {
        match tr_expr(fns, tv, es[0], st, m) {
            Err(e) => Err(e),
            Ok(o) => match tr_exprs(fns, tv, es.drop_first(), o.st, o.m) {
                Err(e) => Err(e),
                Ok(rest) => Ok(ArgsOut { st: rest.st, m: rest.m, vals: seq![o.v] + rest.vals }),
            },
        }
    }
}

/// The IR effect of a call: fix the expected signature (builtin table
/// first, then the declared functions, with the pointer-mutability
/// pre-check), translate the arguments, compare the argument types against
/// the expected parameters, declare the callee as an import, and emit the
/// call. The result is the call's single result value.
pub open spec fn tr_call(fns: Seq<FnDeclV>, tv: Seq<VarV>, c: CallV, st: StV, m: ModV) -> Result<
    TrOut,
    ErrV,
>
    decreases c,
{
    let expected: Result<SigV, ErrV> = match spec_builtin_sig(c.func) {
        Some(sig) => Ok(sig),
        None => match spec_find_fn(fns, c.func) {
            None => Err(ErrV::UnknownCallee(c.func)),
            Some(f) => match spec_check_ptr_args(f.args, c.args, 0) {
                Some(e) => Err(e),
                None => Ok(spec_user_sig(f)),
            },
        },
    };
    match expected {
        Err(e) => Err(e),
        Ok(sig) => match tr_exprs(fns, tv, c.args, st, m) {
            Err(e) => Err(e),
            Ok(o) => {
                let atypes = o.vals.map_values(|v: usize| o.st.value_types[v as int]);
                if atypes != sig.params {
                    Err(ErrV::SignatureMismatch { func: c.func })
                } else {
                    match spec_declare(o.m, c.func, Linkage::Import, sig) {
                        Err(_) => Err(ErrV::DeclConflict(c.func)),
                        Ok((m2, _id)) => Ok(
                            TrOut {
                                st: o.st.emit_value(
                                    sig.returns[0],
                                    InstV::CallFn {
                                        callee: c.func,
                                        args: o.vals,
                                        dest: o.st.next_value(),
                                    },
                                ),
                                m: m2,
                                v: o.st.next_value(),
                            },
                        ),
                    }
                }
            },
        },
    }
}

// ---------------------------------------------------------------------------
// Statement translation.
// ---------------------------------------------------------------------------

/// The IR effect of one statement.
pub open spec fn tr_stmt(fns: Seq<FnDeclV>, tv: Seq<VarV>, s: StmtV, st: StV, m: ModV) -> Result<
    TrOut,
    ErrV,
>
    decreases s,
{
    match s {
        StmtV::Assign(a) => tr_assign(fns, tv, a, st, m),
        StmtV::If(cond, body) => {
            let b_then = st.blocks.len() as usize;
            let st1 = StV { blocks: st.blocks.push(empty_block()), ..st };
            let b_merge = st1.blocks.len() as usize;
            let st2 = StV { blocks: st1.blocks.push(empty_block()), ..st1 };
            match tr_expr(fns, tv, cond, st2, m) {
                Err(e) => Err(e),
                Ok(o) => {
                    let st3 = o.st.emit(
                        InstV::Brif { cond: o.v, then_block: b_then, else_block: b_merge },
                    );
                    let st4 = StV { cur: b_then, ..st3 };
                    let st5 = seal(st4, b_then);
                    tr_if_body(fns, tv, body, st5, o.m, b_merge)
                },
            }
        },
        StmtV::Return(e) => match tr_expr(fns, tv, e, st, m) {
            Err(e2) => Err(e2),
            Ok(o) => Ok(TrOut { st: o.st.emit(InstV::Ret { value: o.v }), m: o.m, v: o.v }),
        },
        StmtV::Call(c) => tr_call(fns, tv, c, st, m),
        StmtV::ReAssign(l) => tr_reassign(fns, tv, l, st, m),
    }
}

/// The body of an `if`, translated into the already-current `then` block.
/// A `Return` ends the body: the remaining statements are skipped, the
/// merge block becomes current and is sealed, and a sentinel `0` is the
/// `if`'s value. Without a `Return` the body falls through with a jump to
/// the merge block.
pub open spec fn tr_if_body(
    fns: Seq<FnDeclV>,
    tv: Seq<VarV>,
    body: Seq<StmtV>,
    st: StV,
    m: ModV,
    b_merge: usize,
) -> Result<TrOut, ErrV>
    decreases body,
{
    if body.len() == 0 {
        let st1 = st.emit(InstV::Jump { block: b_merge });
        let st2 = StV { cur: b_merge, ..st1 };
        let st3 = seal(st2, b_merge);
        Ok(out_val(st3, m, IrType::I32, InstV::Iconst { ty: IrType::I32, imm: 0, dest: st3.next_value() }))
    } else if body[0] is Return {
        match tr_stmt(fns, tv, body[0], st, m) {
            Err(e) => Err(e),
            Ok(o) => {
                let st2 = StV { cur: b_merge, ..o.st };
                let st3 = seal(st2, b_merge);
                Ok(out_val(st3, o.m, IrType::I32, InstV::Iconst { ty: IrType::I32, imm: 0, dest: st3.next_value() }))
            },
        }
    } else {
        match tr_stmt(fns, tv, body[0], st, m) {
            Err(e) => Err(e),
            Ok(o) => tr_if_body(fns, tv, body.drop_first(), o.st, o.m, b_merge),
        }
    }
}

/// The IR effect of a declaration with initializer: the value is computed
/// subject to the typing rules (literals take the declared width; an
/// address-of into a `*mut` type demands a mutable referent), its IR type
/// must equal the declared type's width, and it is stored into the slot.
pub open spec fn tr_assign(fns: Seq<FnDeclV>, tv: Seq<VarV>, a: AssignV, st: StV, m: ModV) -> Result<
    TrOut,
    ErrV,
>
    decreases a,
{
    match spec_lookup(tv, a.target) {
        None => Err(ErrV::UnknownBinding(a.target)),
        Some(var) => {
            let vty = var.ty();
            let value_r: Result<TrOut, ErrV> = match a.value {
                ExprV::Literal(LitV::Float(lex)) => match vty {
                    EmptyType::Float(FloatType::F32) => Ok(
                        out_val(st, m, IrType::F32, InstV::Fconst { ty: IrType::F32, lexeme: lex, dest: st.next_value() }),
                    ),
                    EmptyType::Float(FloatType::F64) => Ok(
                        out_val(st, m, IrType::F64, InstV::Fconst { ty: IrType::F64, lexeme: lex, dest: st.next_value() }),
                    ),
                    _ => Err(
                        ErrV::TypeMismatch { expected: spec_value_type(vty), actual: IrType::F32 },
                    ),
                },
                ExprV::Literal(LitV::Integer(lex)) => match vty {
                    EmptyType::Integer(IntegerType::I32) => int_const(st, m, IrType::I32, lex),
                    EmptyType::Integer(IntegerType::I64) => int_const(st, m, IrType::I64, lex),
                    EmptyType::Integer(IntegerType::PointerSize) => int_const(
                        st,
                        m,
                        IrType::I64,
                        lex,
                    ),
                    EmptyType::Pointer(_) => int_const(st, m, IrType::I64, lex),
                    _ => Err(
                        ErrV::TypeMismatch { expected: spec_value_type(vty), actual: IrType::I32 },
                    ),
                },
                ExprV::AddressOf(nm, _mf) => match spec_lookup(tv, nm) {
                    None => Err(ErrV::UnknownBinding(nm)),
                    Some(tgt) => {
                        let bad = match a.var_type {
                            EmptyType::Pointer(p) => p.mutable && !tgt.mutable(),
                            _ => false,
                        };
                        if bad {
                            Err(
                                ErrV::PointerMutabilityMismatch {
                                    name: nm,
                                    expected_mutable: true,
                                },
                            )
                        } else {
                            tr_expr(fns, tv, a.value, st, m)
                        }
                    },
                },
                _ => tr_expr(fns, tv, a.value, st, m),
            };
            match value_r {
                Err(e) => Err(e),
                Ok(o) => match var {
                    VarV::Register { .. } => Err(ErrV::RegisterAssign(a.target)),
                    VarV::Stack { slot, ty, .. } => {
                        if o.st.value_types[o.v as int] != spec_value_type(ty) {
                            Err(
                                ErrV::TypeMismatch {
                                    expected: spec_value_type(ty),
                                    actual: o.st.value_types[o.v as int],
                                },
                            )
                        } else {
                            Ok(
                                TrOut {
                                    st: o.st.emit(InstV::StackStore { value: o.v, slot }),
                                    m: o.m,
                                    v: o.v,
                                },
                            )
                        }
                    },
                },
            }
        },
    }
}

/// The IR effect of a reassignment: the value is computed first; the
/// target must exist and be mutable, and receives a register redefinition
/// or a stack store according to its storage.
pub open spec fn tr_reassign(fns: Seq<FnDeclV>, tv: Seq<VarV>, l: LocalV, st: StV, m: ModV) -> Result<
    TrOut,
    ErrV,
>
    decreases l,
{
    match tr_expr(fns, tv, l.value, st, m) {
        Err(e) => Err(e),
        Ok(o) => match spec_lookup(tv, l.target) {
            None => Err(ErrV::UnknownBinding(l.target)),
            Some(VarV::Register { var, mutable, .. }) => {
                if !mutable {
                    Err(ErrV::ImmutableAssign(l.target))
                } else {
                    Ok(TrOut { st: o.st.emit(InstV::DefVar { var, value: o.v }), m: o.m, v: o.v })
                }
            },
            Some(VarV::Stack { slot, mutable, .. }) => {
                if !mutable {
                    Err(ErrV::ImmutableAssign(l.target))
                } else {
                    Ok(
                        TrOut {
                            st: o.st.emit(InstV::StackStore { value: o.v, slot }),
                            m: o.m,
                            v: o.v,
                        },
                    )
                }
            },
        },
    }
}

// ---------------------------------------------------------------------------
// Declarations and programs.
// ---------------------------------------------------------------------------

/// Statements of a function body, translated in source order.
pub open spec fn tr_stmts(fns: Seq<FnDeclV>, tv: Seq<VarV>, ss: Seq<StmtV>, st: StV, m: ModV) -> Result<
    (StV, ModV),
    ErrV,
>
    decreases ss,
{
    if ss.len() == 0 {
        Ok((st, m))
    } else {
        match tr_stmt(fns, tv, ss[0], st, m) {
            Err(e) => Err(e),
            Ok(o) => tr_stmts(fns, tv, ss.drop_first(), o.st, o.m),
        }
    }
}

/// Append one block-parameter value per parameter type to block `b`.
pub open spec fn spec_append_params(st: StV, b: usize, tys: Seq<IrType>) -> StV
    decreases tys,
{
    if tys.len() == 0 {
        st
    } else {
        let v = st.next_value();
        let st1 = StV {
            value_types: st.value_types.push(tys[0]),
            blocks: st.blocks.update(
                b as int,
                BlockV { params: st.blocks[b as int].params.push(v), ..st.blocks[b as int] },
            ),
            ..st
        };
        spec_append_params(st1, b, tys.drop_first())
    }
}

/// The fresh per-function IR state: one empty entry block, current.
pub open spec fn entry_state() -> StV {
    StV {
        value_types: Seq::empty(),
        slots: Seq::empty(),
        vars: Seq::empty(),
        blocks: seq![empty_block()],
        cur: 0,
    }
}

/// The IR effect of one function declaration: build the entry block and
/// its parameter values, allocate storage for every local, translate the
/// body in source order, seal all blocks, then declare the function with
/// `Export` linkage under its source name and attach the body.
pub open spec fn tr_decl(fns: Seq<FnDeclV>, d: FnDeclV, m: ModV) -> Result<ModV, ErrV> {
    let sig = spec_user_sig(d);
    let st0 = spec_append_params(entry_state(), 0, sig.params);
    let vals = Seq::new(d.args.len(), |i: int| i as usize);
    match spec_declare_variables(d, vals, st0) {
        Err(e) => Err(e),
        Ok((tv, st1)) => match tr_stmts(fns, tv, d.body, st1, m) {
            Err(e) => Err(e),
            Ok((st2, m2)) => {
                let st3 = seal_all(st2);
                match spec_declare(m2, d.name, Linkage::Export, sig) {
                    Err(_) => Err(ErrV::DeclConflict(d.name)),
                    Ok((m3, id)) => {
                        if m3.entries[id].defined {
                            Err(ErrV::DeclConflict(d.name))
                        } else {
                            Ok(
                                ModV {
                                    entries: m3.entries.update(
                                        id,
                                        EntryV {
                                            defined: true,
                                            body: Some(st3),
                                            ..m3.entries[id]
                                        },
                                    ),
                                },
                            )
                        }
                    },
                }
            },
        },
    }
}

/// Translate the declarations of a program in source order.
pub open spec fn tr_program(fns: Seq<FnDeclV>, ds: Seq<FnDeclV>, m: ModV) -> Result<ModV, ErrV>
    decreases ds,
{
    if ds.len() == 0 {
        Ok(m)
    } else {
        match tr_decl(fns, ds[0], m) {
            Err(e) => Err(e),
            Ok(m2) => tr_program(fns, ds.drop_first(), m2),
        }
    }
}

/// What compiling a parsed program yields: the finished module, or the
/// diagnostic on which the pipeline stops.
pub open spec fn spec_compile(ds: Seq<FnDeclV>) -> Result<ModV, ErrV> {
    tr_program(ds, ds, ModV { entries: Seq::empty() })
}

// ---------------------------------------------------------------------------
// Frame facts: what expression translation leaves untouched.
// ---------------------------------------------------------------------------

/// How the IR state after translating an expression relates to the state
/// before: same insertion point, same blocks, slots and variables; value
/// types only appended; other blocks untouched; the current block only
/// extended, and never with a store or a register redefinition.
pub open spec fn expr_frame(st: StV, st2: StV) -> bool {
    &&& st2.cur == st.cur
    &&& st2.blocks.len() == st.blocks.len()
    &&& st2.slots == st.slots
    &&& st2.vars == st.vars
    &&& st2.value_types.len() >= st.value_types.len()
    &&& forall|k: int| 0 <= k < st.value_types.len() ==> st2.value_types[k] == st.value_types[k]
    &&& forall|b: int|
        0 <= b < st.blocks.len() && b != st.cur ==> st2.blocks[b] == st.blocks[b]
    &&& st2.blocks[st.cur as int].params == st.blocks[st.cur as int].params
    &&& st2.blocks[st.cur as int].sealed == st.blocks[st.cur as int].sealed
    &&& st2.blocks[st.cur as int].insts.len() >= st.blocks[st.cur as int].insts.len()
    &&& forall|k: int|
        0 <= k < st.blocks[st.cur as int].insts.len() ==> st2.blocks[st.cur as int].insts[k]
            == st.blocks[st.cur as int].insts[k]
    &&& forall|k: int|
        st.blocks[st.cur as int].insts.len() <= k < st2.blocks[st.cur as int].insts.len() ==> !(
        st2.blocks[st.cur as int].insts[k] is StackStore) && !(st2.blocks[
            st.cur as int
        ].insts[k] is DefVar)
}

pub proof fn lemma_expr_frame_refl(st: StV)
    ensures
        expr_frame(st, st),
{
}

pub proof fn lemma_expr_frame_trans(a: StV, b: StV, c: StV)
    requires
        expr_frame(a, b),
        expr_frame(b, c),
    ensures
        expr_frame(a, c),
{
}

/// Emitting a non-store, non-redefinition instruction keeps the frame.
pub proof fn lemma_emit_value_frame(st: StV, ty: IrType, i: InstV)
    requires
        st.cur_ok(),
        !(i is StackStore),
        !(i is DefVar),
    ensures
        expr_frame(st, st.emit_value(ty, i)),
        st.emit_value(ty, i).cur_ok(),
{
}

/// Translating an expression only appends to the current block, and never
/// appends a store or a register redefinition; the produced value id is in
/// range.
pub proof fn lemma_tr_expr_frame(fns: Seq<FnDeclV>, tv: Seq<VarV>, e: ExprV, st: StV, m: ModV)
    requires
        st.cur_ok(),
    ensures
        tr_expr(fns, tv, e, st, m) matches Ok(o) ==> {
            &&& expr_frame(st, o.st)
            &&& o.st.cur_ok()
            &&& o.v < o.st.value_types.len()
        },
    decreases e,
{
    match e {
        ExprV::Call(c) => {
            lemma_tr_call_frame(fns, tv, c, st, m);
        },
        ExprV::Literal(l) => {
            match l {
                LitV::Float(lex) => {
                    lemma_emit_value_frame(
                        st,
                        IrType::F32,
                        InstV::Fconst { ty: IrType::F32, lexeme: lex, dest: st.next_value() },
                    );
                },
                LitV::Integer(lex) => {
                    match spec_base10_parse(lex) {
                        Ok(v) => {
                            lemma_emit_value_frame(
                                st,
                                IrType::I32,
                                InstV::Iconst { ty: IrType::I32, imm: v, dest: st.next_value() },
                            );
                        },
                        Err(_) => {},
                    }
                },
            }
        },
        ExprV::Identifier(x) => {
            match spec_lookup(tv, x) {
                Some(VarV::Stack { ty, slot, .. }) => {
                    lemma_emit_value_frame(
                        st,
                        spec_value_type(ty),
                        InstV::StackLoad { ty: spec_value_type(ty), slot, dest: st.next_value() },
                    );
                },
                Some(VarV::Register { ty, var, .. }) => {
                    lemma_emit_value_frame(st, spec_value_type(ty), InstV::UseVar { var, dest: st.next_value() });
                },
                None => {},
            }
        },
        ExprV::AddressOf(x, _mf) => {
            match spec_lookup(tv, x) {
                Some(VarV::Stack { slot, .. }) => {
                    lemma_emit_value_frame(
                        st,
                        IrType::I64,
                        InstV::StackAddr { ty: IrType::I64, slot, dest: st.next_value() },
                    );
                },
                _ => {},
            }
        },
        ExprV::DeRef(x) => {
            match spec_lookup(tv, x) {
                Some(VarV::Stack { ty, slot, .. }) => {
                    match ty {
                        EmptyType::Pointer(p) => {
                            let st2 = st.emit_value(
                                IrType::I64,
                                InstV::StackLoad { ty: IrType::I64, slot, dest: st.next_value() },
                            );
                            let pt = spec_value_type(p.ty);
                            lemma_emit_value_frame(
                                st,
                                IrType::I64,
                                InstV::StackLoad { ty: IrType::I64, slot, dest: st.next_value() },
                            );
                            lemma_emit_value_frame(
                                st2,
                                pt,
                                InstV::LoadMem { ty: pt, addr: st.next_value(), dest: st2.next_value() },
                            );
                            lemma_expr_frame_trans(
                                st,
                                st2,
                                st2.emit_value(pt, InstV::LoadMem { ty: pt, addr: st.next_value(), dest: st2.next_value() }),
                            );
                        },
                        _ => {},
                    }
                },
                _ => {},
            }
        },
    }
}

/// `lemma_tr_expr_frame`, for an argument list: every produced value id is
/// in range of the final state's value table.
pub proof fn lemma_tr_exprs_frame(fns: Seq<FnDeclV>, tv: Seq<VarV>, es: Seq<ExprV>, st: StV, m: ModV)
    requires
        st.cur_ok(),
    ensures
        tr_exprs(fns, tv, es, st, m) matches Ok(o) ==> {
            &&& expr_frame(st, o.st)
            &&& o.st.cur_ok()
            &&& o.vals.len() == es.len()
            &&& forall|k: int| 0 <= k < o.vals.len() ==> o.vals[k] < o.st.value_types.len()
        },
    decreases es,
{
    if es.len() > 0 {
        lemma_tr_expr_frame(fns, tv, es[0], st, m);
        match tr_expr(fns, tv, es[0], st, m) {
            Ok(o1) => {
                lemma_tr_exprs_frame(fns, tv, es.drop_first(), o1.st, o1.m);
                match tr_exprs(fns, tv, es.drop_first(), o1.st, o1.m) {
                    Ok(rest) => {
                        lemma_expr_frame_trans(st, o1.st, rest.st);
                    },
                    Err(_) => {},
                }
            },
            Err(_) => {},
        }
    }
}

pub proof fn lemma_tr_call_frame(fns: Seq<FnDeclV>, tv: Seq<VarV>, c: CallV, st: StV, m: ModV)
    requires
        st.cur_ok(),
    ensures
        tr_call(fns, tv, c, st, m) matches Ok(o) ==> {
            &&& expr_frame(st, o.st)
            &&& o.st.cur_ok()
            &&& o.v < o.st.value_types.len()
        },
    decreases c,
{
    lemma_tr_exprs_frame(fns, tv, c.args, st, m);
    match tr_exprs(fns, tv, c.args, st, m) {
        Ok(o) => {
            let expected: Result<SigV, ErrV> = match spec_builtin_sig(c.func) {
                Some(sig) => Ok(sig),
                None => match spec_find_fn(fns, c.func) {
                    None => Err(ErrV::UnknownCallee(c.func)),
                    Some(f) => match spec_check_ptr_args(f.args, c.args, 0) {
                        Some(e) => Err(e),
                        None => Ok(spec_user_sig(f)),
                    },
                },
            };
            match expected {
                Ok(sig) => {
                    lemma_emit_value_frame(
                        o.st,
                        sig.returns[0],
                        InstV::CallFn { callee: c.func, args: o.vals, dest: o.st.next_value() },
                    );
                    lemma_expr_frame_trans(
                        st,
                        o.st,
                        o.st.emit_value(
                            sig.returns[0],
                            InstV::CallFn { callee: c.func, args: o.vals, dest: o.st.next_value() },
                        ),
                    );
                },
                Err(_) => {},
            }
        },
        Err(_) => {},
    }
}

// ---------------------------------------------------------------------------
// Laws of the translator.
// ---------------------------------------------------------------------------

/// The operand produced for a taken address `&x` has the target
/// pointer-size integer type.
pub proof fn lemma_address_of_pointer_size(
    fns: Seq<FnDeclV>,
    tv: Seq<VarV>,
    x: Seq<char>,
    mf: bool,
    st: StV,
    m: ModV,
)
    requires
        st.value_types.len() <= usize::MAX,
    ensures
        tr_expr(fns, tv, ExprV::AddressOf(x, mf), st, m) matches Ok(o) ==> o.st.value_types[o.v as int]
            == IrType::I64,
{
    match spec_lookup(tv, x) {
        Some(VarV::Stack { slot, .. }) => {
            let o = out_val(st, m, IrType::I64, InstV::StackAddr { ty: IrType::I64, slot, dest: st.next_value() });
            assert(o.st.value_types == st.value_types.push(IrType::I64));
            assert(o.v == st.value_types.len());
        },
        _ => {},
    }
}

/// The value produced for `*p`, where `p` is a stack local of pointer
/// type, has the IR width of the pointee type.
pub proof fn lemma_deref_pointee_width(fns: Seq<FnDeclV>, tv: Seq<VarV>, x: Seq<char>, st: StV, m: ModV)
    requires
        st.value_types.len() + 1 <= usize::MAX,
    ensures
        tr_expr(fns, tv, ExprV::DeRef(x), st, m) matches Ok(o) ==> {
            &&& spec_lookup(tv, x) matches Some(var)
            &&& var.ty() matches EmptyType::Pointer(p)
            &&& o.st.value_types[o.v as int] == spec_value_type(p.ty)
        },
{
    match spec_lookup(tv, x) {
        Some(VarV::Stack { ty, slot, .. }) => {
            match ty {
                EmptyType::Pointer(p) => {
                    let st2 = st.emit_value(
                        IrType::I64,
                        InstV::StackLoad { ty: IrType::I64, slot, dest: st.next_value() },
                    );
                    let pt = spec_value_type(p.ty);
                    let st3 = st2.emit_value(
                        pt,
                        InstV::LoadMem { ty: pt, addr: st.next_value(), dest: st2.next_value() },
                    );
                    assert(st2.value_types == st.value_types.push(IrType::I64));
                    assert(st3.value_types == st2.value_types.push(pt));
                    assert(st3.value_types[st2.next_value() as int] == pt);
                },
                _ => {},
            }
        },
        _ => {},
    }
}

/// Reassignment of a binding not declared `mut` stops translation with
/// `ImmutableAssign`, and nothing is stored: the only instructions the
/// attempt appends while evaluating the value are free of stores and
/// register redefinitions.
pub proof fn lemma_immutable_reassign(fns: Seq<FnDeclV>, tv: Seq<VarV>, l: LocalV, st: StV, m: ModV)
    requires
        st.cur_ok(),
        spec_lookup(tv, l.target) matches Some(var) && !var.mutable(),
    ensures
        tr_expr(fns, tv, l.value, st, m) matches Ok(o) ==> {
            &&& tr_reassign(fns, tv, l, st, m) == Err::<TrOut, ErrV>(
                ErrV::ImmutableAssign(l.target),
            )
            &&& expr_frame(st, o.st)
        },
{
    lemma_tr_expr_frame(fns, tv, l.value, st, m);
}

/// A `return` inside an `if` body ends the body: the statements after the
/// first top-level `Return` contribute nothing to the translation.
pub proof fn lemma_if_body_return_stops(
    fns: Seq<FnDeclV>,
    tv: Seq<VarV>,
    body: Seq<StmtV>,
    st: StV,
    m: ModV,
    b_merge: usize,
    k: int,
)
    requires
        0 <= k < body.len(),
        body[k] is Return,
        forall|j: int| 0 <= j < k ==> !(body[j] is Return),
    ensures
        tr_if_body(fns, tv, body, st, m, b_merge) == tr_if_body(
            fns,
            tv,
            body.take(k + 1),
            st,
            m,
            b_merge,
        ),
    decreases k,
{
    let cut = body.take(k + 1);
    assert(cut.len() == k + 1);
    assert(cut[0] == body[0]);
    if k == 0 {
        assert(body[0] is Return);
    } else {
        assert(!(body[0] is Return));
        match tr_stmt(fns, tv, body[0], st, m) {
            Err(_) => {},
            Ok(o) => {
                assert(body.drop_first()[k - 1] == body[k]);
                assert(forall|j: int|
                    0 <= j < k - 1 ==> body.drop_first()[j] == body[j + 1] && !(body.drop_first()[j]
                        is Return));
                lemma_if_body_return_stops(
                    fns,
                    tv,
                    body.drop_first(),
                    o.st,
                    o.m,
                    b_merge,
                    k - 1,
                );
                assert(cut.drop_first() =~= body.drop_first().take(k));
            },
        }
    }
}

/// Statement translation keeps the insertion point valid and never
/// removes a block.
pub proof fn lemma_tr_stmt_props(fns: Seq<FnDeclV>, tv: Seq<VarV>, s: StmtV, st: StV, m: ModV)
    requires
        st.cur_ok(),
    ensures
        tr_stmt(fns, tv, s, st, m) matches Ok(o) ==> o.st.cur_ok() && o.st.blocks.len()
            >= st.blocks.len(),
    decreases s,
{
    match s {
        StmtV::Assign(a) => {
            if spec_lookup(tv, a.target) is Some {
                match a.value {
                    ExprV::Literal(_) => {},
                    _ => {
                        lemma_tr_expr_frame(fns, tv, a.value, st, m);
                    },
                }
            }
        },
        StmtV::If(cond, body) => {
            let b_then = st.blocks.len() as usize;
            let st1 = StV { blocks: st.blocks.push(empty_block()), ..st };
            let b_merge = st1.blocks.len() as usize;
            let st2 = StV { blocks: st1.blocks.push(empty_block()), ..st1 };
            lemma_tr_expr_frame(fns, tv, cond, st2, m);
            match tr_expr(fns, tv, cond, st2, m) {
                Ok(o) => {
                    let st3 = o.st.emit(
                        InstV::Brif { cond: o.v, then_block: b_then, else_block: b_merge },
                    );
                    let st4 = StV { cur: b_then, ..st3 };
                    let st5 = seal(st4, b_then);
                    lemma_tr_if_body_props(fns, tv, body, st5, o.m, b_merge);
                },
                Err(_) => {},
            }
        },
        StmtV::Return(e) => {
            lemma_tr_expr_frame(fns, tv, e, st, m);
        },
        StmtV::Call(c) => {
            lemma_tr_call_frame(fns, tv, c, st, m);
        },
        StmtV::ReAssign(l) => {
            lemma_tr_expr_frame(fns, tv, l.value, st, m);
        },
    }
}

pub proof fn lemma_tr_if_body_props(
    fns: Seq<FnDeclV>,
    tv: Seq<VarV>,
    body: Seq<StmtV>,
    st: StV,
    m: ModV,
    b_merge: usize,
)
    requires
        st.cur_ok(),
        b_merge < st.blocks.len(),
    ensures
        tr_if_body(fns, tv, body, st, m, b_merge) matches Ok(o) ==> o.st.cur_ok()
            && o.st.blocks.len() >= st.blocks.len(),
    decreases body,
{
    if body.len() == 0 {
    } else if body[0] is Return {
        lemma_tr_stmt_props(fns, tv, body[0], st, m);
    } else {
        lemma_tr_stmt_props(fns, tv, body[0], st, m);
        match tr_stmt(fns, tv, body[0], st, m) {
            Ok(o) => {
                lemma_tr_if_body_props(fns, tv, body.drop_first(), o.st, o.m, b_merge);
            },
            Err(_) => {},
        }
    }
}

} // verus!
