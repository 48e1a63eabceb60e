//! Storage allocation for locals. Parameters live in register variables;
//! every `let` binding gets an explicit stack slot sized to its declared
//! type, so taking its address is always legal.

use vstd::prelude::*;
use crate::ast::{ArgV, EmptyType, FnDecl, Stmt, StmtV, FnDeclV, decl_view, stmts_view, args_view,
    lemma_stmts_view_len};
use crate::errors::{ErrV, TransError, err_view};
use crate::ir::{FuncIr, StV, func_view, value_type, spec_value_type, InstV, Inst};

verus! {

/// A local that occupies an explicit stack slot; its address is obtainable.
#[derive(Debug)]
pub struct StackVar {
    pub name: String,
    pub ty: EmptyType,
    pub slot: usize,
    pub mutable: bool,
}

/// A local that lives only in an IR virtual register; it has no address.
#[derive(Debug)]
pub struct RegVar {
    pub name: String,
    pub ty: EmptyType,
    pub var: usize,
    pub mutable: bool,
}

/// Storage assigned to one local.
#[derive(Debug)]
pub enum Variable {
    Stack(StackVar),
    Register(RegVar),
}

impl Variable {
    /// The declared source-language type of the local.
    pub fn ty(&self) -> (r: &EmptyType)
        ensures
            *r == var_view(*self).ty(),
    {
        match self {
            Variable::Stack(v) => &v.ty,
            Variable::Register(v) => &v.ty,
        }
    }
}

/// Mathematical view of a `Variable`.
#[verifier::ext_equal]
pub enum VarV {
    Stack { name: Seq<char>, ty: EmptyType, slot: usize, mutable: bool },
    Register { name: Seq<char>, ty: EmptyType, var: usize, mutable: bool },
}

impl VarV {
    pub open spec fn name(self) -> Seq<char> {
        match self {
            VarV::Stack { name, .. } => name,
            VarV::Register { name, .. } => name,
        }
    }

    pub open spec fn ty(self) -> EmptyType {
        match self {
            VarV::Stack { ty, .. } => ty,
            VarV::Register { ty, .. } => ty,
        }
    }

    pub open spec fn mutable(self) -> bool {
        match self {
            VarV::Stack { mutable, .. } => mutable,
            VarV::Register { mutable, .. } => mutable,
        }
    }
}

pub open spec fn var_view(v: Variable) -> VarV {
    match v {
        Variable::Stack(s) => VarV::Stack {
            name: s.name@,
            ty: s.ty,
            slot: s.slot,
            mutable: s.mutable,
        },
        Variable::Register(r) => VarV::Register {
            name: r.name@,
            ty: r.ty,
            var: r.var,
            mutable: r.mutable,
        },
    }
}

/// The first entry carrying `name`, if any. Names are unique within a
/// function, so the first entry is the only one.
pub open spec fn spec_lookup(tv: Seq<VarV>, name: Seq<char>) -> Option<VarV>
    decreases tv.len(),
{
    if tv.len() == 0 {
        None
    } else if tv[0].name() == name {
        Some(tv[0])
    } else {
        spec_lookup(tv.drop_first(), name)
    }
}

/// The function-scoped mapping from local names to their storage.
#[derive(Debug)]
pub struct VarTable {
    pub entries: Vec<Variable>,
}

pub open spec fn table_view(t: VarTable) -> Seq<VarV> {
    t.entries@.map_values(|v: Variable| var_view(v))
}

impl VarTable {
    pub fn new() -> (t: VarTable)
        ensures
            table_view(t) =~= Seq::<VarV>::empty(),
    {
        let t = VarTable { entries: Vec::new() };
        proof {
            assert(t.entries@.map_values(|v: Variable| var_view(v)) =~= Seq::<VarV>::empty());
        }
        t
    }

    /// Index of the entry bound to `name`, if any.
    #[verifier::loop_isolation(false)]
    pub fn get_index(&self, name: &String) -> (r: Option<usize>)
        ensures
            match r {
                Some(i) => {
                    &&& i < table_view(*self).len()
                    &&& spec_lookup(table_view(*self), name@) == Some(table_view(*self)[i as int])
                },
                None => spec_lookup(table_view(*self), name@) is None,
            },
    {
        let ghost tv = table_view(*self);
        proof {
            assert(tv.skip(0) =~= tv);
        }
        let mut i: usize = 0;
        while i < self.entries.len()
            invariant
                0 <= i <= self.entries@.len(),
                tv == table_view(*self),
                tv.len() == self.entries@.len(),
                forall|k: int| 0 <= k < tv.len() ==> tv[k] == var_view(self.entries@[k]),
                spec_lookup(tv, name@) == spec_lookup(tv.skip(i as int), name@),
            decreases self.entries@.len() - i,
        {
            proof {
                assert(tv.skip(i as int)[0] == tv[i as int]);
                assert(tv.skip(i as int).drop_first() =~= tv.skip(i + 1));
            }
            let matches_name = match &self.entries[i] {
                Variable::Stack(v) => v.name.eq(name),
                Variable::Register(v) => v.name.eq(name),
            };
            if matches_name {
                return Some(i);
            }
            i = i + 1;
        }
        proof {
            assert(tv.skip(self.entries@.len() as int) =~= Seq::<VarV>::empty());
        }
        None
    }

    /// True if some binding carries `name`.
    pub fn contains(&self, name: &String) -> (r: bool)
        ensures
            r == (spec_lookup(table_view(*self), name@) is Some),
    {
        self.get_index(name).is_some()
    }

    /// Bind a new entry. The caller has checked the name is fresh.
    pub fn insert(&mut self, v: Variable)
        ensures
            table_view(*final(self)) == table_view(*old(self)).push(var_view(v)),
    {
        self.entries.push(v);
        proof {
            assert(self.entries@.map_values(|x: Variable| var_view(x)) =~~= old(
                self,
            ).entries@.map_values(|x: Variable| var_view(x)).push(var_view(self.entries@.last())));
        }
    }
}

// ---------------------------------------------------------------------------
// The declaration pass, and its specification.
// ---------------------------------------------------------------------------

/// One register allocation step: a parameter enters as a register variable
/// bound to its incoming block-parameter value.
pub open spec fn spec_declare_arg(a: ArgV, val: usize, tv: Seq<VarV>, st: StV) -> Result<
    (Seq<VarV>, StV),
    ErrV,
> {
    if spec_lookup(tv, a.name) is Some {
        Err(ErrV::DuplicateBinding(a.name))
    } else {
        let var = st.vars.len() as usize;
        let st1 = StV { vars: st.vars.push(spec_value_type(a.t)), ..st };
        let st2 = st1.emit(InstV::DefVar { var, value: val });
        Ok((tv.push(VarV::Register { name: a.name, ty: a.t, var, mutable: false }), st2))
    }
}

pub open spec fn spec_declare_args(args: Seq<ArgV>, vals: Seq<usize>, tv: Seq<VarV>, st: StV) -> Result<
    (Seq<VarV>, StV),
    ErrV,
>
    decreases args.len(),
{
    if args.len() == 0 {
        Ok((tv, st))
    } else {
        match spec_declare_arg(args[0], vals[0], tv, st) {
            Ok((tv2, st2)) => spec_declare_args(args.drop_first(), vals.drop_first(), tv2, st2),
            Err(e) => Err(e),
        }
    }
}

/// One stack allocation step: a `let` binding gets a slot sized to its
/// declared type.
pub open spec fn spec_declare_binding(
    name: Seq<char>,
    ty: EmptyType,
    mutable: bool,
    tv: Seq<VarV>,
    st: StV,
) -> Result<(Seq<VarV>, StV), ErrV> {
    if spec_lookup(tv, name) is Some {
        Err(ErrV::DuplicateBinding(name))
    } else {
        let slot = st.slots.len() as usize;
        let st1 = StV { slots: st.slots.push(spec_value_type(ty).spec_bytes()), ..st };
        Ok((tv.push(VarV::Stack { name, ty, slot, mutable }), st1))
    }
}

pub open spec fn spec_declare_stmt(s: StmtV, tv: Seq<VarV>, st: StV) -> Result<
    (Seq<VarV>, StV),
    ErrV,
>
    decreases s,
{
    match s {
        StmtV::Assign(a) => spec_declare_binding(a.target, a.var_type, a.mutable, tv, st),
        StmtV::If(_c, body) => spec_declare_stmts(body, tv, st),
        _ => Ok((tv, st)),
    }
}

pub open spec fn spec_declare_stmts(ss: Seq<StmtV>, tv: Seq<VarV>, st: StV) -> Result<
    (Seq<VarV>, StV),
    ErrV,
>
    decreases ss,
{
    if ss.len() == 0 {
        Ok((tv, st))
    } else {
        match spec_declare_stmt(ss[0], tv, st) {
            Ok((tv2, st2)) => spec_declare_stmts(ss.drop_first(), tv2, st2),
            Err(e) => Err(e),
        }
    }
}

/// What the declaration pass computes for a whole function: parameters
/// first, then every `let` binding of the body, `if` bodies too.
pub open spec fn spec_declare_variables(d: FnDeclV, vals: Seq<usize>, st: StV) -> Result<
    (Seq<VarV>, StV),
    ErrV,
> {
    match spec_declare_args(d.args, vals, Seq::empty(), st) {
        Ok((tv2, st2)) => spec_declare_stmts(d.body, tv2, st2),
        Err(e) => Err(e),
    }
}

// ---------------------------------------------------------------------------
// Law: every `let` binding's slot is sized to its declared type's width.
// ---------------------------------------------------------------------------

/// Every stack entry of the table names a slot in range whose size is the
/// IR width of the entry's declared type.
pub open spec fn table_slots_ok(tv: Seq<VarV>, st: StV) -> bool {
    forall|k: int|
        0 <= k < tv.len() ==> ((#[trigger] tv[k]) matches VarV::Stack { ty, slot, .. } ==> slot
            < st.slots.len() && st.slots[slot as int] == spec_value_type(ty).spec_bytes())
}

/// `table_slots_ok`, on every state whose slot count a machine can hold.
pub open spec fn table_slots_ok_c(tv: Seq<VarV>, st: StV) -> bool {
    st.slots.len() <= usize::MAX ==> table_slots_ok(tv, st)
}

/// `st2` keeps every slot of `st`.
pub open spec fn slots_extend(st: StV, st2: StV) -> bool {
    &&& st2.slots.len() >= st.slots.len()
    &&& forall|j: int| 0 <= j < st.slots.len() ==> st2.slots[j] == st.slots[j]
}

proof fn lemma_declare_args_slots(args: Seq<ArgV>, vals: Seq<usize>, tv: Seq<VarV>, st: StV)
    requires
        table_slots_ok_c(tv, st),
    ensures
        spec_declare_args(args, vals, tv, st) matches Ok((tv2, st2)) ==> table_slots_ok_c(tv2, st2)
            && slots_extend(st, st2),
    decreases args.len(),
{
    if args.len() > 0 {
        match spec_declare_arg(args[0], vals[0], tv, st) {
            Ok((tv1, st1)) => {
                lemma_declare_args_slots(args.drop_first(), vals.drop_first(), tv1, st1);
            },
            Err(_) => {},
        }
    }
}

proof fn lemma_declare_stmt_slots(s: StmtV, tv: Seq<VarV>, st: StV)
    requires
        table_slots_ok_c(tv, st),
    ensures
        spec_declare_stmt(s, tv, st) matches Ok((tv2, st2)) ==> table_slots_ok_c(tv2, st2)
            && slots_extend(st, st2),
    decreases s,
{
    match s {
        StmtV::Assign(a) => {
            match spec_declare_binding(a.target, a.var_type, a.mutable, tv, st) {
                Ok((tv2, st2)) => {
                    if st2.slots.len() <= usize::MAX {
                        assert(st.slots.len() < usize::MAX);
                        assert forall|k: int| 0 <= k < tv2.len() implies ((#[trigger] tv2[k]) matches
                            VarV::Stack { ty, slot, .. } ==> slot < st2.slots.len() && st2.slots[slot as int]
                            == spec_value_type(ty).spec_bytes()) by {
                            if k < tv.len() {
                                assert(tv2[k] == tv[k]);
                            } else {
                                assert(tv2[k] == VarV::Stack {
                                    name: a.target,
                                    ty: a.var_type,
                                    slot: st.slots.len() as usize,
                                    mutable: a.mutable,
                                });
                            }
                        }
                    }
                },
                Err(_) => {},
            }
        },
        StmtV::If(_c, body) => {
            lemma_declare_stmts_slots(body, tv, st);
        },
        _ => {},
    }
}

proof fn lemma_declare_stmts_slots(ss: Seq<StmtV>, tv: Seq<VarV>, st: StV)
    requires
        table_slots_ok_c(tv, st),
    ensures
        spec_declare_stmts(ss, tv, st) matches Ok((tv2, st2)) ==> table_slots_ok_c(tv2, st2)
            && slots_extend(st, st2),
    decreases ss,
{
    if ss.len() > 0 {
        lemma_declare_stmt_slots(ss[0], tv, st);
        match spec_declare_stmt(ss[0], tv, st) {
            Ok((tv1, st1)) => {
                lemma_declare_stmts_slots(ss.drop_first(), tv1, st1);
            },
            Err(_) => {},
        }
    }
}

/// A successful lookup names an entry of the table.
proof fn lemma_lookup_member(tv: Seq<VarV>, name: Seq<char>)
    ensures
        spec_lookup(tv, name) matches Some(v) ==> exists|k: int| 0 <= k < tv.len() && tv[k] == v,
    decreases tv.len(),
{
    if tv.len() > 0 {
        if tv[0].name() == name {
        } else {
            lemma_lookup_member(tv.drop_first(), name);
            match spec_lookup(tv.drop_first(), name) {
                Some(v) => {
                    let k = choose|k: int|
                        0 <= k < tv.drop_first().len() && tv.drop_first()[k] == v;
                    assert(tv[k + 1] == v);
                },
                None => {},
            }
        }
    }
}

/// After storage allocation, the slot of every `let` binding has exactly
/// the IR width of the binding's declared type.
pub proof fn lemma_let_slot_width(d: FnDeclV, vals: Seq<usize>, st0: StV, name: Seq<char>)
    requires
        spec_declare_variables(d, vals, st0) matches Ok((tv, st)) && (st.slots.len() <= usize::MAX
            && (spec_lookup(tv, name) matches Some(v) && (v matches VarV::Stack { ty, slot, .. }))),
    ensures
        spec_declare_variables(d, vals, st0) matches Ok((tv, st)) ==> (spec_lookup(tv, name) matches
            Some(v) ==> (v matches VarV::Stack { ty, slot, .. } ==> slot < st.slots.len()
            && st.slots[slot as int] == spec_value_type(ty).spec_bytes())),
{
    assert(table_slots_ok_c(Seq::<VarV>::empty(), st0));
    lemma_declare_args_slots(d.args, vals, Seq::empty(), st0);
    match spec_declare_args(d.args, vals, Seq::empty(), st0) {
        Ok((tv1, st1)) => {
            lemma_declare_stmts_slots(d.body, tv1, st1);
            match spec_declare_stmts(d.body, tv1, st1) {
                Ok((tv2, _st2)) => {
                    lemma_lookup_member(tv2, name);
                },
                Err(_) => {},
            }
        },
        Err(_) => {},
    }
}

/// Recursively walk one statement, allocating a stack slot for every
/// `let` binding encountered, `if` bodies too.
#[verifier::loop_isolation(false)]
fn declare_variables_in_stmt(
    stmt: &Stmt,
    builder: &mut FuncIr,
    variables: &mut VarTable,
) -> (r: Result<(), TransError>)
    requires
        func_view(*old(builder)).cur_ok(),
    ensures
        func_view(*final(builder)).cur_ok(),
        match r {
            Ok(()) => {
                &&& spec_declare_stmt(
                    crate::ast::stmt_view(*stmt),
                    table_view(*old(variables)),
                    func_view(*old(builder)),
                ) matches Ok((tv2, st2))
                &&& table_view(*final(variables)) == tv2
                &&& func_view(*final(builder)) == st2
            },
            Err(e) => spec_declare_stmt(
                crate::ast::stmt_view(*stmt),
                table_view(*old(variables)),
                func_view(*old(builder)),
            ) == Err::<(Seq<VarV>, StV), ErrV>(err_view(e)),
        },
    decreases *stmt,
{
    match stmt {
        Stmt::Assign(assignment) => {
            if variables.contains(&assignment.target.ident) {
                return Err(TransError::DuplicateBinding(assignment.target.ident.clone()));
            }
            let t = value_type(&assignment.var_type);
            let slot = builder.create_slot(t.bytes());
            variables.insert(
                Variable::Stack(
                    StackVar {
                        name: assignment.target.ident.clone(),
                        ty: assignment.var_type.clone_type(),
                        slot,
                        mutable: assignment.mutable,
                    },
                ),
            );
            Ok(())
        },
        Stmt::If(_condition, if_body) => {
            let ghost body_v = stmts_view(if_body@);
            proof {
                lemma_stmts_view_len(if_body@);
                assert(body_v.skip(0) =~= body_v);
            }
            let mut k: usize = 0;
            while k < if_body.len()
                invariant
                    func_view(*builder).cur_ok(),
                    0 <= k <= if_body@.len(),
                    body_v == stmts_view(if_body@),
                    body_v.len() == if_body@.len(),
                    forall|j: int| 0 <= j < if_body@.len() ==> body_v[j] == crate::ast::stmt_view(
                        if_body@[j],
                    ),
                    spec_declare_stmts(body_v, table_view(*old(variables)), func_view(*old(builder)))
                        == spec_declare_stmts(
                        body_v.skip(k as int),
                        table_view(*variables),
                        func_view(*builder),
                    ),
                decreases if_body@.len() - k,
            {
                proof {
                    assert(body_v.skip(k as int)[0] == body_v[k as int]);
                    assert(body_v.skip(k as int).drop_first() =~= body_v.skip(k + 1));
                }
                proof {
                    assert(decreases_to!(*stmt => *if_body));
                    assert(decreases_to!(*if_body => if_body@));
                    assert(decreases_to!(if_body@ => if_body@[k as int]));
                }
                let r = declare_variables_in_stmt(&if_body[k], builder, variables);
                if r.is_err() {
                    return r;
                }
                k = k + 1;
            }
            proof {
                assert(body_v.skip(if_body@.len() as int) =~= Seq::<StmtV>::empty());
            }
            Ok(())
        },
        _ => Ok(()),
    }
}

/// Walk a function's parameters and body, allocating storage for every
/// local: parameters as register variables bound to the incoming values,
/// `let` bindings as stack slots. A repeated name is refused.
#[verifier::loop_isolation(false)]
pub fn declare_variables(
    node: &FnDecl,
    builder: &mut FuncIr,
    entry_vals: &Vec<usize>,
) -> (r: Result<VarTable, TransError>)
    requires
        func_view(*old(builder)).cur_ok(),
        entry_vals@.len() == node.args@.len(),
    ensures
        func_view(*final(builder)).cur_ok(),
        match r {
            Ok(table) => {
                &&& spec_declare_variables(decl_view(*node), entry_vals@, func_view(*old(builder)))
                    matches Ok((tv2, st2))
                &&& table_view(table) == tv2
                &&& func_view(*final(builder)) == st2
            },
            Err(e) => spec_declare_variables(
                decl_view(*node),
                entry_vals@,
                func_view(*old(builder)),
            ) == Err::<(Seq<VarV>, StV), ErrV>(err_view(e)),
        },
{
    let mut variables = VarTable::new();
    let ghost args_v = args_view(node.args@);
    let ghost body_v = stmts_view(node.body@);
    proof {
        assert(args_v.skip(0) =~= args_v);
        assert(entry_vals@.skip(0) =~= entry_vals@);
    }
    let mut i: usize = 0;
    while i < node.args.len()
        invariant
            func_view(*builder).cur_ok(),
            0 <= i <= node.args@.len(),
            entry_vals@.len() == node.args@.len(),
            args_v.len() == node.args@.len(),
            args_v == args_view(node.args@),
            forall|j: int| 0 <= j < node.args@.len() ==> args_v[j] == crate::ast::arg_view(
                node.args@[j],
            ),
            spec_declare_args(args_v, entry_vals@, Seq::empty(), func_view(*old(builder)))
                == spec_declare_args(
                args_v.skip(i as int),
                entry_vals@.skip(i as int),
                table_view(variables),
                func_view(*builder),
            ),
        decreases node.args@.len() - i,
    {
        proof {
            assert(args_v.skip(i as int)[0] == args_v[i as int]);
            assert(args_v.skip(i as int).drop_first() =~= args_v.skip(i + 1));
            assert(entry_vals@.skip(i as int)[0] == entry_vals@[i as int]);
            assert(entry_vals@.skip(i as int).drop_first() =~= entry_vals@.skip(i + 1));
        }
        let arg = &node.args[i];
        if variables.contains(&arg.name) {
            return Err(TransError::DuplicateBinding(arg.name.clone()));
        }
        let t = value_type(&arg.t);
        let var = builder.declare_var(t);
        builder.emit(Inst::DefVar { var, value: entry_vals[i] });
        variables.insert(
            Variable::Register(
                RegVar { name: arg.name.clone(), ty: arg.t.clone_type(), var, mutable: false },
            ),
        );
        i = i + 1;
    }
    proof {
        assert(args_v.skip(node.args@.len() as int) =~= Seq::<ArgV>::empty());
        assert(entry_vals@.skip(node.args@.len() as int) =~= Seq::<usize>::empty());
        lemma_stmts_view_len(node.body@);
        assert(decl_view(*node).args == args_v);
        assert(decl_view(*node).body == body_v);
        assert(body_v.skip(0) =~= body_v);
    }
    let mut k: usize = 0;
    while k < node.body.len()
        invariant
            func_view(*builder).cur_ok(),
            0 <= k <= node.body@.len(),
            body_v.len() == node.body@.len(),
            body_v == stmts_view(node.body@),
            forall|j: int| 0 <= j < node.body@.len() ==> body_v[j] == crate::ast::stmt_view(
                node.body@[j],
            ),
            spec_declare_variables(decl_view(*node), entry_vals@, func_view(*old(builder)))
                == spec_declare_stmts(body_v.skip(k as int), table_view(variables), func_view(*builder)),
        decreases node.body@.len() - k,
    {
        proof {
            assert(body_v.skip(k as int)[0] == body_v[k as int]);
            assert(body_v.skip(k as int).drop_first() =~= body_v.skip(k + 1));
        }
        let r = declare_variables_in_stmt(&node.body[k], builder, &mut variables);
        match r {
            Ok(()) => {},
            Err(e) => {
                return Err(e);
            },
        }
        k = k + 1;
    }
    proof {
        assert(body_v.skip(node.body@.len() as int) =~= Seq::<StmtV>::empty());
    }
    Ok(variables)
}

} // verus!
