//! The intermediate representation the translator emits: typed SSA-like
//! values, explicit stack slots, register variables, basic blocks, and a
//! module that collects function declarations and finished bodies. A
//! backend lowers this IR one instruction at a time to native code.

use vstd::prelude::*;
use crate::ast::{EmptyType, FloatType, IntegerType};
use crate::errors::TransError;

verus! {

/// The IR value types the backend distinguishes: 32- and 64-bit integers
/// and 32- and 64-bit floats.
#[derive(Clone, Copy, Debug, PartialEq, Eq, Structural)]
pub enum IrType {
    I32,
    I64,
    F32,
    F64,
}

impl IrType {
    pub open spec fn spec_bytes(self) -> u32 {
        match self {
            IrType::I32 => 4u32,
            IrType::I64 => 8u32,
            IrType::F32 => 4u32,
            IrType::F64 => 8u32,
        }
    }

    /// Size in bytes of a value of this type.
    pub fn bytes(&self) -> (r: u32)
        ensures
            r == self.spec_bytes(),
    {
        match self {
            IrType::I32 => 4,
            IrType::I64 => 8,
            IrType::F32 => 4,
            IrType::F64 => 8,
        }
    }
}

/// The IR type a source-language type occupies. Pointers use the target
/// pointer size, which is 64-bit on the reference target.
pub open spec fn spec_value_type(t: EmptyType) -> IrType
{
    match t {
        EmptyType::Float(FloatType::F32) => IrType::F32,
        EmptyType::Float(FloatType::F64) => IrType::F64,
        EmptyType::Integer(IntegerType::I32) => IrType::I32,
        EmptyType::Integer(IntegerType::I64) => IrType::I64,
        EmptyType::Integer(IntegerType::PointerSize) => IrType::I64,
        EmptyType::Pointer(_) => IrType::I64,
    }
}

/// Convert a source-language type term to its IR value type.
pub fn value_type(t: &EmptyType) -> (r: IrType)
    ensures
        r == spec_value_type(*t),
{
    match t {
        EmptyType::Float(FloatType::F32) => IrType::F32,
        EmptyType::Float(FloatType::F64) => IrType::F64,
        EmptyType::Integer(IntegerType::I32) => IrType::I32,
        EmptyType::Integer(IntegerType::I64) => IrType::I64,
        EmptyType::Integer(IntegerType::PointerSize) => IrType::I64,
        EmptyType::Pointer(_) => IrType::I64,
    }
}

/// A function signature: parameter and return value types.
#[derive(Debug)]
pub struct Sig {
    pub params: Vec<IrType>,
    pub returns: Vec<IrType>,
}

/// Mathematical view of a signature.
#[verifier::ext_equal]
pub struct SigV {
    pub params: Seq<IrType>,
    pub returns: Seq<IrType>,
}

pub open spec fn sig_view(s: Sig) -> SigV {
    SigV { params: s.params@, returns: s.returns@ }
}

/// Compare two type lists element by element.
#[verifier::loop_isolation(false)]
pub fn ir_types_eq(a: &Vec<IrType>, b: &Vec<IrType>) -> (r: bool)
    ensures
        r == (a@ == b@),
{
    if a.len() != b.len() {
        proof {
            assert(a@.len() != b@.len());
        }
        return false;
    }
    let mut i: usize = 0;
    while i < a.len()
        invariant
            0 <= i <= a.len(),
            a.len() == b.len(),
            forall|k: int| 0 <= k < i ==> a@[k] == b@[k],
        decreases a.len() - i,
    {
        if a[i] != b[i] {
            return false;
        }
        i = i + 1;
    }
    proof {
        assert(a@ =~= b@);
    }
    true
}

/// Copy a list of value types.
#[verifier::loop_isolation(false)]
pub fn copy_types(v: &Vec<IrType>) -> (r: Vec<IrType>)
    ensures
        r@ == v@,
{
    let mut r: Vec<IrType> = Vec::new();
    let mut i: usize = 0;
    while i < v.len()
        invariant
            0 <= i <= v.len(),
            r@ == v@.take(i as int),
        decreases v.len() - i,
    {
        r.push(v[i]);
        proof {
            assert(v@.take(i + 1) =~= v@.take(i as int).push(v@[i as int]));
        }
        i = i + 1;
    }
    proof {
        assert(v@.take(v@.len() as int) =~= v@);
    }
    r
}

/// Copy a signature.
pub fn sig_copy(s: &Sig) -> (r: Sig)
    ensures
        sig_view(r) == sig_view(*s),
{
    let r = Sig { params: copy_types(&s.params), returns: copy_types(&s.returns) };
    proof {
        assert(sig_view(r) =~= sig_view(*s));
    }
    r
}

/// Compare two signatures.
pub fn sig_eq(a: &Sig, b: &Sig) -> (r: bool)
    ensures
        r == (sig_view(*a) == sig_view(*b)),
{
    let r = ir_types_eq(&a.params, &b.params) && ir_types_eq(&a.returns, &b.returns);
    proof {
        if a.params@ == b.params@ && a.returns@ == b.returns@ {
            assert(sig_view(*a) =~= sig_view(*b));
        }
    }
    r
}

/// How a function name is bound in the object module.
#[derive(Debug, Clone, Copy, PartialEq, Eq, Structural)]
pub enum Linkage {
    /// Supplied at link time.
    Import,
    /// Defined here and exported under its source name.
    Export,
}

/// One IR instruction. Instructions that produce a value receive the next
/// unused value id at emission.
#[derive(Debug)]
pub enum Inst {
    /// An integer constant of the given width.
    Iconst { ty: IrType, imm: i64, dest: usize },
    /// A float constant; the backend converts the lexeme at the given width.
    Fconst { ty: IrType, lexeme: String, dest: usize },
    /// Read a stack slot as a value of the given type.
    StackLoad { ty: IrType, slot: usize, dest: usize },
    /// Write a value into a stack slot.
    StackStore { value: usize, slot: usize },
    /// The address of a stack slot, as a pointer-size integer.
    StackAddr { ty: IrType, slot: usize, dest: usize },
    /// Read memory through a pointer value.
    LoadMem { ty: IrType, addr: usize, dest: usize },
    /// The current value of a register variable.
    UseVar { var: usize, dest: usize },
    /// Redefine a register variable.
    DefVar { var: usize, value: usize },
    /// Call a declared function with argument values; the single result.
    CallFn { callee: String, args: Vec<usize>, dest: usize },
    /// Branch to `then_block` if `cond` is nonzero, else to `else_block`.
    Brif { cond: usize, then_block: usize, else_block: usize },
    /// Unconditional jump.
    Jump { block: usize },
    /// Return a value from the function.
    Ret { value: usize },
}

/// Mathematical view of an instruction.
#[verifier::ext_equal]
pub enum InstV {
    Iconst { ty: IrType, imm: i64, dest: usize },
    Fconst { ty: IrType, lexeme: Seq<char>, dest: usize },
    StackLoad { ty: IrType, slot: usize, dest: usize },
    StackStore { value: usize, slot: usize },
    StackAddr { ty: IrType, slot: usize, dest: usize },
    LoadMem { ty: IrType, addr: usize, dest: usize },
    UseVar { var: usize, dest: usize },
    DefVar { var: usize, value: usize },
    CallFn { callee: Seq<char>, args: Seq<usize>, dest: usize },
    Brif { cond: usize, then_block: usize, else_block: usize },
    Jump { block: usize },
    Ret { value: usize },
}

pub open spec fn inst_view(i: Inst) -> InstV {
    match i {
        Inst::Iconst { ty, imm, dest } => InstV::Iconst { ty, imm, dest },
        Inst::Fconst { ty, lexeme, dest } => InstV::Fconst { ty, lexeme: lexeme@, dest },
        Inst::StackLoad { ty, slot, dest } => InstV::StackLoad { ty, slot, dest },
        Inst::StackStore { value, slot } => InstV::StackStore { value, slot },
        Inst::StackAddr { ty, slot, dest } => InstV::StackAddr { ty, slot, dest },
        Inst::LoadMem { ty, addr, dest } => InstV::LoadMem { ty, addr, dest },
        Inst::UseVar { var, dest } => InstV::UseVar { var, dest },
        Inst::DefVar { var, value } => InstV::DefVar { var, value },
        Inst::CallFn { callee, args, dest } => InstV::CallFn { callee: callee@, args: args@, dest },
        Inst::Brif { cond, then_block, else_block } => InstV::Brif { cond, then_block, else_block },
        Inst::Jump { block } => InstV::Jump { block },
        Inst::Ret { value } => InstV::Ret { value },
    }
}

/// A basic block: parameter value ids, instructions in emission order, and
/// whether the block has been sealed.
#[derive(Debug)]
pub struct BlockIr {
    pub params: Vec<usize>,
    pub insts: Vec<Inst>,
    pub sealed: bool,
}

/// Mathematical view of a block.
#[verifier::ext_equal]
pub struct BlockV {
    pub params: Seq<usize>,
    pub insts: Seq<InstV>,
    pub sealed: bool,
}

pub open spec fn block_view(b: BlockIr) -> BlockV {
    BlockV { params: b.params@, insts: b.insts@.map_values(|i: Inst| inst_view(i)), sealed: b.sealed }
}

/// A function under construction.
#[derive(Debug)]
pub struct FuncIr {
    /// The IR type of each value id.
    pub value_types: Vec<IrType>,
    /// The size in bytes of each stack slot.
    pub slots: Vec<u32>,
    /// The declared type of each register variable.
    pub vars: Vec<IrType>,
    /// The basic blocks, in creation order.
    pub blocks: Vec<BlockIr>,
    /// The block instructions are currently inserted into.
    pub cur: usize,
}

/// Mathematical view of a function under construction.
#[verifier::ext_equal]
pub struct StV {
    pub value_types: Seq<IrType>,
    pub slots: Seq<u32>,
    pub vars: Seq<IrType>,
    pub blocks: Seq<BlockV>,
    pub cur: usize,
}

pub open spec fn func_view(f: FuncIr) -> StV {
    StV {
        value_types: f.value_types@,
        slots: f.slots@,
        vars: f.vars@,
        blocks: f.blocks@.map_values(|b: BlockIr| block_view(b)),
        cur: f.cur,
    }
}

impl StV {
    /// The insertion point names an existing block.
    pub open spec fn cur_ok(self) -> bool {
        self.cur < self.blocks.len()
    }

    /// Append a result-producing instruction to the current block; its
    /// result is the next value id, of type `ty`.
    pub open spec fn emit_value(self, ty: IrType, i: InstV) -> StV {
        StV {
            value_types: self.value_types.push(ty),
            blocks: self.blocks.update(
                self.cur as int,
                BlockV {
                    insts: self.blocks[self.cur as int].insts.push(i),
                    ..self.blocks[self.cur as int]
                },
            ),
            ..self
        }
    }

    /// Append a resultless instruction to the current block.
    pub open spec fn emit(self, i: InstV) -> StV {
        StV {
            blocks: self.blocks.update(
                self.cur as int,
                BlockV {
                    insts: self.blocks[self.cur as int].insts.push(i),
                    ..self.blocks[self.cur as int]
                },
            ),
            ..self
        }
    }

    /// The id the next produced value will receive.
    pub open spec fn next_value(self) -> usize {
        self.value_types.len() as usize
    }
}

impl FuncIr {
    pub fn new() -> (f: FuncIr)
        ensures
            func_view(f) == (StV {
                value_types: Seq::<IrType>::empty(),
                slots: Seq::<u32>::empty(),
                vars: Seq::<IrType>::empty(),
                blocks: Seq::<BlockV>::empty(),
                cur: 0,
            }),
    {
        let f = FuncIr {
            value_types: Vec::new(),
            slots: Vec::new(),
            vars: Vec::new(),
            blocks: Vec::new(),
            cur: 0,
        };
        proof {
            assert(f.blocks@.map_values(|b: BlockIr| block_view(b)) =~= Seq::<BlockV>::empty());
        }
        f
    }

    /// Create a new, empty, unsealed block and return its id.
    pub fn create_block(&mut self) -> (b: usize)
        ensures
            b == old(self) .blocks@.len(),
            func_view(*final(self)) == (StV {
                blocks: func_view(*old(self)).blocks.push(
                    BlockV { params: Seq::empty(), insts: Seq::empty(), sealed: false },
                ),
                ..func_view(*old(self))
            }),
    {
        let b = self.blocks.len();
        self.blocks.push(BlockIr { params: Vec::new(), insts: Vec::new(), sealed: false });
        proof {
            let blk = self.blocks@.last();
            assert(block_view(blk).params =~= Seq::<usize>::empty());
            assert(block_view(blk).insts =~= Seq::<InstV>::empty());
            assert(self.blocks@.map_values(|bb: BlockIr| block_view(bb)) =~~= old(
                self,
            ).blocks@.map_values(|bb: BlockIr| block_view(bb)).push(block_view(blk)));
        }
        b
    }

    /// Move the insertion point to block `b`.
    pub fn switch_to_block(&mut self, b: usize)
        requires
            b < func_view(*old(self)).blocks.len(),
        ensures
            func_view(*final(self)) == (StV { cur: b, ..func_view(*old(self)) }),
    {
        proof {
            assert(self.blocks@.len() == func_view(*self).blocks.len());
        }
        self.cur = b;
    }

    /// Mark block `b` as sealed: no further predecessors will be added.
    pub fn seal_block(&mut self, b: usize)
        requires
            b < func_view(*old(self)).blocks.len(),
        ensures
            func_view(*final(self)) == (StV {
                blocks: func_view(*old(self)).blocks.update(
                    b as int,
                    BlockV { sealed: true, ..func_view(*old(self)).blocks[b as int] },
                ),
                ..func_view(*old(self))
            }),
    {
        proof {
            assert(self.blocks@.len() == func_view(*self).blocks.len());
        }
        let blk = &mut self.blocks[b];  // hold the entry mutably
        blk.sealed = true;
        proof {
            assert(self.blocks@.map_values(|bb: BlockIr| block_view(bb)) =~~= old(
                self,
            ).blocks@.map_values(|bb: BlockIr| block_view(bb)).update(
                b as int,
                BlockV { sealed: true, ..block_view(old(self).blocks@[b as int]) },
            ));
        }
    }

    /// Append one block parameter of type `ty` to block `b`, producing a
    /// fresh value id.
    pub fn append_block_param(&mut self, b: usize, ty: IrType) -> (v: usize)
        requires
            b < func_view(*old(self)).blocks.len(),
        ensures
            v == func_view(*old(self)).next_value(),
            func_view(*final(self)) == (StV {
                value_types: func_view(*old(self)).value_types.push(ty),
                blocks: func_view(*old(self)).blocks.update(
                    b as int,
                    BlockV {
                        params: func_view(*old(self)).blocks[b as int].params.push(
                            func_view(*old(self)).next_value(),
                        ),
                        ..func_view(*old(self)).blocks[b as int]
                    },
                ),
                ..func_view(*old(self))
            }),
    {
        proof {
            assert(self.blocks@.len() == func_view(*self).blocks.len());
        }
        let v = self.value_types.len();
        self.value_types.push(ty);
        let blk = &mut self.blocks[b];
        blk.params.push(v);
        proof {
            assert(self.blocks@.map_values(|bb: BlockIr| block_view(bb)) =~~= old(
                self,
            ).blocks@.map_values(|bb: BlockIr| block_view(bb)).update(
                b as int,
                BlockV {
                    params: block_view(old(self).blocks@[b as int]).params.push(v),
                    ..block_view(old(self).blocks@[b as int])
                },
            ));
        }
        v
    }

    /// Allocate a stack slot of `size` bytes and return its id.
    pub fn create_slot(&mut self, size: u32) -> (sl: usize)
        ensures
            sl == old(self).slots@.len(),
            func_view(*final(self)) == (StV {
                slots: func_view(*old(self)).slots.push(size),
                ..func_view(*old(self))
            }),
    {
        let sl = self.slots.len();
        self.slots.push(size);
        sl
    }

    /// Declare a register variable of type `ty` and return its id.
    pub fn declare_var(&mut self, ty: IrType) -> (v: usize)
        ensures
            v == old(self).vars@.len(),
            func_view(*final(self)) == (StV {
                vars: func_view(*old(self)).vars.push(ty),
                ..func_view(*old(self))
            }),
    {
        let v = self.vars.len();
        self.vars.push(ty);
        v
    }

    /// Append a result-producing instruction typed `ty` to the current block.
    pub fn emit_value(&mut self, ty: IrType, i: Inst) -> (v: usize)
        requires
            func_view(*old(self)).cur_ok(),
        ensures
            v == func_view(*old(self)).next_value(),
            func_view(*final(self)) == func_view(*old(self)).emit_value(ty, inst_view(i)),
    {
        let v = self.value_types.len();
        self.value_types.push(ty);
        let c = self.cur;
        let blk = &mut self.blocks[c];
        blk.insts.push(i);
        proof {
            assert(self.blocks@.map_values(|bb: BlockIr| block_view(bb)) =~~= func_view(
                *old(self),
            ).emit_value(ty, inst_view(i)).blocks);
        }
        v
    }

    /// Append a resultless instruction to the current block.
    pub fn emit(&mut self, i: Inst)
        requires
            func_view(*old(self)).cur_ok(),
        ensures
            func_view(*final(self)) == func_view(*old(self)).emit(inst_view(i)),
    {
        let c = self.cur;
        let blk = &mut self.blocks[c];
        blk.insts.push(i);
        proof {
            assert(self.blocks@.map_values(|bb: BlockIr| block_view(bb)) =~~= func_view(
                *old(self),
            ).emit(inst_view(i)).blocks);
        }
    }

    /// Mark every block sealed.
    #[verifier::loop_isolation(false)]
    pub fn seal_all_blocks(&mut self)
        ensures
            func_view(*final(self)).value_types == func_view(*old(self)).value_types,
            func_view(*final(self)).slots == func_view(*old(self)).slots,
            func_view(*final(self)).vars == func_view(*old(self)).vars,
            func_view(*final(self)).cur == func_view(*old(self)).cur,
            func_view(*final(self)).blocks.len() == func_view(*old(self)).blocks.len(),
            forall|k: int| 0 <= k < func_view(*old(self)).blocks.len() ==> func_view(
                *final(self),
            ).blocks[k] == (BlockV { sealed: true, ..func_view(*old(self)).blocks[k] }),
    {
        let mut k: usize = 0;
        while k < self.blocks.len()
            invariant
                self.value_types@ == old(self).value_types@,
                self.slots@ == old(self).slots@,
                self.vars@ == old(self).vars@,
                self.cur == old(self).cur,
                self.blocks@.len() == old(self).blocks@.len(),
                0 <= k <= self.blocks@.len(),
                forall|j: int| 0 <= j < k ==> self.blocks@[j] == (BlockIr {
                    sealed: true,
                    ..old(self).blocks@[j]
                }),
                forall|j: int| k <= j < self.blocks@.len() ==> self.blocks@[j] == old(
                    self,
                ).blocks@[j],
            decreases self.blocks@.len() - k,
        {
            let blk = &mut self.blocks[k];
            blk.sealed = true;
            k = k + 1;
        }
    }
}

// ---------------------------------------------------------------------------
// The module: declared functions and finished bodies.
// ---------------------------------------------------------------------------

/// One function known to the module.
#[derive(Debug)]
pub struct FuncEntry {
    pub name: String,
    pub sig: Sig,
    pub linkage: Linkage,
    pub body: Option<FuncIr>,
}

/// Mathematical view of a module entry.
#[verifier::ext_equal]
pub struct EntryV {
    pub name: Seq<char>,
    pub sig: SigV,
    pub linkage: Linkage,
    pub defined: bool,
    pub body: Option<StV>,
}

pub open spec fn entry_view(e: FuncEntry) -> EntryV {
    EntryV {
        name: e.name@,
        sig: sig_view(e.sig),
        linkage: e.linkage,
        defined: e.body is Some,
        body: match e.body {
            Some(f) => Some(func_view(f)),
            None => None,
        },
    }
}

/// The IR module under construction.
#[derive(Debug)]
pub struct ModuleIr {
    pub entries: Vec<FuncEntry>,
}

/// Mathematical view of the module.
#[verifier::ext_equal]
pub struct ModV {
    pub entries: Seq<EntryV>,
}

pub open spec fn module_view(m: ModuleIr) -> ModV {
    ModV { entries: m.entries@.map_values(|e: FuncEntry| entry_view(e)) }
}

/// Index of the entry carrying `name`, if any.
pub open spec fn spec_find_entry(m: ModV, name: Seq<char>) -> Option<int>
{
    spec_find_entry_from(m, name, 0)
}

pub open spec fn spec_find_entry_from(m: ModV, name: Seq<char>, i: int) -> Option<int>
    decreases m.entries.len() - i,
{
    if i < 0 || i >= m.entries.len() {
        None
    } else if m.entries[i].name == name {
        Some(i)
    } else {
        spec_find_entry_from(m, name, i + 1)
    }
}

/// A found entry lies in range and carries the name searched for.
pub proof fn lemma_find_entry_props(m: ModV, name: Seq<char>)
    ensures
        spec_find_entry(m, name) matches Some(i) ==> 0 <= i < m.entries.len() && m.entries[i].name
            == name,
{
    lemma_find_entry_from_props(m, name, 0);
}

proof fn lemma_find_entry_from_props(m: ModV, name: Seq<char>, j: int)
    ensures
        spec_find_entry_from(m, name, j) matches Some(i) ==> j <= i < m.entries.len()
            && m.entries[i].name == name,
    decreases m.entries.len() - j,
{
    if 0 <= j < m.entries.len() {
        lemma_find_entry_from_props(m, name, j + 1);
    }
}

/// What `declare_function` does: bind `name` to `sig`, reusing an existing
/// entry with the same signature (upgrading `Import` to `Export` when
/// redeclared as `Export`), or refuse a conflicting redeclaration.
pub open spec fn spec_declare(m: ModV, name: Seq<char>, linkage: Linkage, sig: SigV) -> Result<
    (ModV, int),
    ErrVDecl,
> {
    match spec_find_entry(m, name) {
        None => {
            let e = EntryV { name, sig, linkage, defined: false, body: None };
            Ok((ModV { entries: m.entries.push(e) }, m.entries.len() as int))
        },
        Some(i) => {
            if m.entries[i].sig == sig {
                let lk = if linkage == Linkage::Export {
                    Linkage::Export
                } else {
                    m.entries[i].linkage
                };
                Ok(
                    (
                        ModV {
                            entries: m.entries.update(
                                i,
                                EntryV { linkage: lk, ..m.entries[i] },
                            ),
                        },
                        i,
                    ),
                )
            } else {
                Err(ErrVDecl::Conflict)
            }
        },
    }
}

/// Why a declaration or definition was refused.
pub enum ErrVDecl {
    Conflict,
}

impl ModuleIr {
    pub fn new() -> (m: ModuleIr)
        ensures
            module_view(m).entries =~= Seq::<EntryV>::empty(),
    {
        let m = ModuleIr { entries: Vec::new() };
        proof {
            assert(m.entries@.map_values(|e: FuncEntry| entry_view(e)) =~~= Seq::<EntryV>::empty());
        }
        m
    }

    /// Find the entry carrying `name`.
    #[verifier::loop_isolation(false)]
    fn find(&self, name: &String) -> (r: Option<usize>)
        ensures
            match r {
                Some(i) => {
                    &&& i < self.entries@.len()
                    &&& spec_find_entry(module_view(*self), name@) == Some(i as int)
                    &&& module_view(*self).entries[i as int].name == name@
                },
                None => spec_find_entry(module_view(*self), name@) is None,
            },
    {
        let ghost mv = module_view(*self);
        let mut i: usize = 0;
        while i < self.entries.len()
            invariant
                0 <= i <= self.entries@.len(),
                mv == module_view(*self),
                mv.entries.len() == self.entries@.len(),
                forall|k: int| 0 <= k < self.entries@.len() ==> mv.entries[k] == entry_view(
                    self.entries@[k],
                ),
                spec_find_entry_from(mv, name@, 0) == spec_find_entry_from(mv, name@, i as int),
            decreases self.entries@.len() - i,
        {
            if self.entries[i].name.eq(name) {
                return Some(i);
            }
            i = i + 1;
        }
        None
    }

    /// Declare `name` with the given linkage and signature; idempotent by
    /// name. A redeclaration with a different signature is refused.
    pub fn declare_function(&mut self, name: &String, linkage: Linkage, sig: &Sig) -> (r: Result<
        usize,
        TransError,
    >)
        ensures
            match r {
                Ok(i) => {
                    &&& spec_declare(module_view(*old(self)), name@, linkage, sig_view(*sig))
                        matches Ok((m2, j))
                    &&& module_view(*final(self)) == m2
                    &&& i as int == j
                },
                Err(e) => {
                    &&& spec_declare(
                        module_view(*old(self)),
                        name@,
                        linkage,
                        sig_view(*sig),
                    ) is Err
                    &&& crate::errors::err_view(e) == crate::errors::ErrV::DeclConflict(name@)
                    &&& *final(self) == *old(self)
                },
            },
    {
        let found = self.find(name);
        match found {
            None => {
                let i = self.entries.len();
                self.entries.push(
                    FuncEntry { name: name.clone(), sig: sig_copy(sig), linkage, body: None },
                );
                proof {
                    assert(self.entries@.map_values(|e: FuncEntry| entry_view(e)) =~~= old(
                        self,
                    ).entries@.map_values(|e: FuncEntry| entry_view(e)).push(
                        entry_view(self.entries@.last()),
                    ));
                    assert(entry_view(self.entries@.last()) =~~= (EntryV {
                        name: name@,
                        sig: sig_view(*sig),
                        linkage,
                        defined: false,
                        body: None,
                    }));
                }
                Ok(i)
            },
            Some(i) => {
                if sig_eq(&self.entries[i].sig, sig) {
                    let upgrade = matches!(linkage, Linkage::Export);
                    if upgrade {
                        let e = &mut self.entries[i];
                        e.linkage = Linkage::Export;
                    }
                    proof {
                        assert(self.entries@.map_values(|e: FuncEntry| entry_view(e)) =~~= old(
                            self,
                        ).entries@.map_values(|e: FuncEntry| entry_view(e)).update(
                            i as int,
                            EntryV {
                                linkage: if linkage == Linkage::Export {
                                    Linkage::Export
                                } else {
                                    module_view(*old(self)).entries[i as int].linkage
                                },
                                ..module_view(*old(self)).entries[i as int]
                            },
                        ));
                    }
                    Ok(i)
                } else {
                    Err(TransError::DeclConflict(name.clone()))
                }
            },
        }
    }

    /// Attach a finished body to entry `id`. Refused if it already has one.
    pub fn define_function(&mut self, id: usize, body: FuncIr) -> (r: Result<(), TransError>)
        requires
            id < module_view(*old(self)).entries.len(),
        ensures
            match r {
                Ok(()) => {
                    &&& !module_view(*old(self)).entries[id as int].defined
                    &&& module_view(*final(self)).entries == module_view(*old(self)).entries.update(
                        id as int,
                        EntryV {
                            defined: true,
                            body: Some(func_view(body)),
                            ..module_view(*old(self)).entries[id as int]
                        },
                    )
                },
                Err(e) => {
                    &&& module_view(*old(self)).entries[id as int].defined
                    &&& crate::errors::err_view(e) == crate::errors::ErrV::DeclConflict(
                        module_view(*old(self)).entries[id as int].name,
                    )
                    &&& *final(self) == *old(self)
                },
            },
    {
        proof {
            assert(self.entries@.len() == module_view(*self).entries.len());
        }
        if self.entries[id].body.is_some() {
            return Err(TransError::DeclConflict(self.entries[id].name.clone()));
        }
        let e = &mut self.entries[id];
        e.body = Some(body);
        proof {
            assert(self.entries@.map_values(|en: FuncEntry| entry_view(en)) =~~= module_view(
                *old(self),
            ).entries.update(
                id as int,
                EntryV {
                    defined: true,
                    body: Some(func_view(self.entries@[id as int].body->Some_0)),
                    ..module_view(*old(self)).entries[id as int]
                },
            ));
        }
        Ok(())
    }
}

} // verus!
