//! Abstract syntax tree for the source language, together with the
//! mathematical views (`*V` types) that contracts are stated over.

use vstd::prelude::*;

verus! {

// ---------------------------------------------------------------------------
// Numeric literals. The textual lexeme is retained; conversion to a concrete
// number is deferred until the destination type is known.
// ---------------------------------------------------------------------------

/// An integer literal, stored as its source lexeme (digits, possibly with
/// `_` separators; for hex and octal literals the base prefix is stripped).
#[derive(Debug, Clone)]
pub struct IntegerLiteral {
    pub token: String,
}

/// A float literal, stored as its source lexeme.
#[derive(Debug, Clone)]
pub struct FloatLiteral {
    pub token: String,
}

/// Why a lexeme could not be converted to an `i64`.
#[derive(Debug, Clone, PartialEq, Eq, Structural)]
pub enum LiteralError {
    /// The lexeme is not a decimal digit string (with optional `_` separators).
    Malformed,
    /// The decimal value does not fit in an `i64`.
    OutOfRange,
}

/// True of `c` iff it is a decimal digit.
pub open spec fn is_dec_digit(c: char) -> bool {
    ('0' as u32) <= (c as u32) && (c as u32) <= ('9' as u32)
}

/// Numeric value of the digit `c`.
pub open spec fn digit_val(c: char) -> int {
    (c as u32) - ('0' as u32)
}

/// A well-formed decimal lexeme: non-empty, starts with a digit, and holds
/// only digits and `_` separators.
pub open spec fn dec_lexeme_ok(s: Seq<char>) -> bool {
    &&& s.len() > 0
    &&& is_dec_digit(s[0])
    &&& forall|i: int| 0 <= i < s.len() ==> is_dec_digit(s[i]) || s[i] == '_'
}

/// The base-10 value of a lexeme, ignoring `_` separators.
pub open spec fn dec_value(s: Seq<char>) -> int
    decreases s.len(),
{
    if s.len() == 0 {
        0
    } else if s.last() == '_' {
        dec_value(s.drop_last())
    } else {
        dec_value(s.drop_last()) * 10 + digit_val(s.last())
    }
}

pub proof fn lemma_dec_value_nonneg(s: Seq<char>)
    requires
        forall|i: int| 0 <= i < s.len() ==> is_dec_digit(s[i]) || s[i] == '_',
    ensures
        dec_value(s) >= 0,
    decreases s.len(),
{
    if s.len() > 0 {
        lemma_dec_value_nonneg(s.drop_last());
    }
}

/// Extending a digit lexeme never decreases its value.
pub proof fn lemma_dec_value_prefix_le(s: Seq<char>, j: int)
    requires
        forall|i: int| 0 <= i < s.len() ==> is_dec_digit(s[i]) || s[i] == '_',
        0 <= j <= s.len(),
    ensures
        dec_value(s.take(j)) <= dec_value(s),
    decreases s.len() - j,
{
    if j < s.len() {
        lemma_dec_value_prefix_le(s, j + 1);
        let t = s.take(j + 1);
        assert(t.drop_last() =~= s.take(j));
        lemma_dec_value_nonneg(s.take(j));
    } else {
        assert(s.take(j) =~= s);
    }
}

impl IntegerLiteral {
    pub fn new(token: &str) -> (r: Self)
        ensures
            r.token@ == token@,
    {
        Self { token: token.to_owned() }
    }

    /// Convert the lexeme to an `i64`, skipping `_` separators.
    ///
    /// Succeeds exactly on well-formed decimal lexemes whose value fits.
    #[verifier::loop_isolation(false)]
    pub fn base10_parse(&self) -> (r: Result<i64, LiteralError>)
        ensures
            r == spec_base10_parse(self.token@),
    {
        let n = self.token.as_str().unicode_len();
        if n == 0 {
            return Err(LiteralError::Malformed);
        }
        let c0 = self.token.as_str().get_char(0);
        let u0 = c0 as u32;
        if !((0x30 <= u0) && (u0 <= 0x39)) {
            return Err(LiteralError::Malformed);
        }
        // First pass: the lexeme must hold only digits and separators.
        let mut j: usize = 0;
        while j < n
            invariant
                0 <= j <= n,
                n == self.token@.len(),
                forall|k: int| 0 <= k < j ==> is_dec_digit(self.token@[k]) || self.token@[k] == '_',
            decreases n - j,
        {
            let c = self.token.as_str().get_char(j);
            let cu = c as u32;
            if !((0x30 <= cu && cu <= 0x39) || c == '_') {
                return Err(LiteralError::Malformed);
            }
            j = j + 1;
        }
        // Second pass: accumulate, watching for overflow.
        let mut acc: i64 = 0;
        let mut i: usize = 0;
        while i < n
            invariant
                0 <= i <= n,
                n == self.token@.len(),
                is_dec_digit(self.token@[0]),
                forall|k: int| 0 <= k < n ==> is_dec_digit(self.token@[k]) || self.token@[k] == '_',
                acc == dec_value(self.token@.take(i as int)),
                0 <= acc <= i64::MAX,
            decreases n - i,
        {
            let c = self.token.as_str().get_char(i);
            proof {
                assert(self.token@.take(i + 1).drop_last() =~= self.token@.take(i as int));
            }
            let cu = c as u32;
            if c == '_' {
                i = i + 1;
            } else {
                let d = cu - 0x30;
                if acc > (i64::MAX - d as i64) / 10 {
                    proof {
                        lemma_not_fit(self.token@, i as int);
                    }
                    return Err(LiteralError::OutOfRange);
                }
                acc = acc * 10 + d as i64;
                i = i + 1;
            }
        }
        proof {
            assert(self.token@.take(n as int) =~= self.token@);
        }
        Ok(acc)
    }
}

/// What `base10_parse` returns for a given lexeme.
pub open spec fn spec_base10_parse(s: Seq<char>) -> Result<i64, LiteralError> {
    if !dec_lexeme_ok(s) {
        Err(LiteralError::Malformed)
    } else if dec_value(s) > i64::MAX {
        Err(LiteralError::OutOfRange)
    } else {
        Ok(dec_value(s) as i64)
    }
}

/// If the value up to and including digit `i` already exceeds `i64::MAX`,
/// so does the value of the whole lexeme.
proof fn lemma_not_fit(s: Seq<char>, i: int)
    requires
        forall|k: int| 0 <= k < s.len() ==> is_dec_digit(s[k]) || s[k] == '_',
        0 <= i < s.len(),
        is_dec_digit(s[i]),
        dec_value(s.take(i)) * 10 + digit_val(s[i]) > i64::MAX,
    ensures
        dec_value(s) > i64::MAX,
{
    let t = s.take(i + 1);
    assert(t.drop_last() =~= s.take(i));
    assert(t.last() == s[i]);
    assert(dec_value(s.take(i + 1)) > i64::MAX);
    lemma_dec_value_prefix_le(s, i + 1);
}

impl FloatLiteral {
    pub fn new(token: &str) -> (r: Self)
        ensures
            r.token@ == token@,
    {
        Self { token: token.to_owned() }
    }
}

/// A literal value, either integral or floating.
#[derive(Debug)]
pub enum Literal {
    Float(FloatLiteral),
    Integer(IntegerLiteral),
}

// ---------------------------------------------------------------------------
// Types of the source language.
// ---------------------------------------------------------------------------

#[derive(Debug, Clone, Copy, PartialEq, Eq, Structural)]
pub enum IntegerType {
    I32,
    I64,
    /// The target pointer-width integer (64-bit on the reference target).
    PointerSize,
}

#[derive(Debug, Clone, Copy, PartialEq, Eq, Structural)]
pub enum FloatType {
    F32,
    F64,
}

/// A pointer type: the pointee type plus whether the referent is mutable.
#[derive(Debug)]
pub struct Pointer {
    pub ty: EmptyType,
    pub mutable: bool,
}

impl Pointer {
    pub fn new(ty: EmptyType, mutable: bool) -> (r: Self)
        ensures
            r.ty == ty,
            r.mutable == mutable,
    {
        Pointer { ty, mutable }
    }
}

/// A type term of the source language. Structural: two types are equal iff
/// their variants and children are equal; pointer mutability participates.
#[derive(Debug)]
pub enum EmptyType {
    Float(FloatType),
    Integer(IntegerType),
    Pointer(Box<Pointer>),
}

impl EmptyType {
    /// A structurally equal copy of this type term.
    pub fn clone_type(&self) -> (r: EmptyType)
        ensures
            r == *self,
        decreases *self,
    {
        match self {
            EmptyType::Float(f) => EmptyType::Float(*f),
            EmptyType::Integer(i) => EmptyType::Integer(*i),
            EmptyType::Pointer(p) => EmptyType::Pointer(
                Box::new(Pointer { ty: p.ty.clone_type(), mutable: p.mutable }),
            ),
        }
    }
}

// ---------------------------------------------------------------------------
// AST nodes.
// ---------------------------------------------------------------------------

/// A variable identifier.
#[derive(Debug, Clone)]
pub struct Name {
    pub ident: String,
}

/// A declaration with initializer: `let [mut] target: var_type = value`.
#[derive(Debug)]
pub struct Assignment {
    pub target: Name,
    pub value: Expression,
    pub var_type: EmptyType,
    pub mutable: bool,
}

impl Assignment {
    pub fn new(target: Name, var_type: EmptyType, value: Expression, mutable: bool) -> (r: Self)
        ensures
            r.target == target,
            r.var_type == var_type,
            r.value == value,
            r.mutable == mutable,
    {
        Self { target, var_type, value, mutable }
    }
}

/// A reassignment of an existing binding: `target = value`.
#[derive(Debug)]
pub struct Local {
    pub target: Name,
    pub value: Expression,
}

impl Local {
    pub fn new(target: Name, value: Expression) -> (r: Self)
        ensures
            r.target == target,
            r.value == value,
    {
        Self { target, value }
    }
}

/// A typed function parameter.
#[derive(Debug)]
pub struct FnArg {
    pub name: String,
    pub t: EmptyType,
}

impl FnArg {
    pub fn new(name: String, t: EmptyType) -> (r: Self)
        ensures
            r.name == name,
            r.t == t,
    {
        Self { name, t }
    }
}

/// The `&` or `&mut` operator applied to a named local.
#[derive(Debug, Clone)]
pub struct AddressOf {
    pub name: String,
    pub mutable: bool,
}

impl AddressOf {
    pub fn new(name: String, mutable: bool) -> (r: Self)
        ensures
            r.name == name,
            r.mutable == mutable,
    {
        AddressOf { name, mutable }
    }
}

/// Function declaration AST node.
#[derive(Debug)]
pub struct FnDecl {
    pub name: String,
    pub args: Vec<FnArg>,
    pub ret_type: EmptyType,
    pub body: Vec<Stmt>,
}

impl FnDecl {
    pub fn new(name: String, args: Vec<FnArg>, ret_type: EmptyType, body: Vec<Stmt>) -> (r: Self)
        ensures
            r.name == name,
            r.args == args,
            r.ret_type == ret_type,
            r.body == body,
    {
        Self { name, args, ret_type, body }
    }
}

/// A function call expression or statement.
#[derive(Debug)]
pub struct Call {
    pub func: String,
    pub args: Vec<Expression>,
}

/// A literal constant together with the textual name of its type; kept from
/// an earlier revision of the front end.
#[derive(Debug, Clone)]
pub struct Constant {
    pub value: String,
    pub _type: String,
}

/// Keywords recognised by an earlier revision of the front end.
#[derive(Debug, Clone, PartialEq, Eq, Structural)]
pub enum Keyword {
    Pass,
    Return,
}

/// Comparison operators; the surface syntax routes comparisons through the
/// builtin helpers, so these appear only in legacy AST forms.
#[derive(Debug, Clone, PartialEq, Eq, Structural)]
pub enum ComparisonOperator {
    Eq,
    NotEq,
    Gt,
    Lt,
}

/// An expression of the source language.
#[derive(Debug)]
pub enum Expression {
    /// A function call, e.g. `f()`.
    Call(Call),
    /// A literal value, e.g. `10.0`.
    Literal(Literal),
    /// A variable identifier, e.g. `x`.
    Identifier(String),
    /// Address-of a variable, e.g. `&x`.
    AddressOf(AddressOf),
    /// Dereference of a variable, e.g. `*x`.
    DeRef(String),
}

/// A statement of the source language.
#[derive(Debug)]
pub enum Stmt {
    Return(Expression),
    If(Expression, Vec<Stmt>),
    Assign(Assignment),
    ReAssign(Local),
    Call(Call),
}

// ---------------------------------------------------------------------------
// Mathematical views of the AST. Strings become `Seq<char>`, vectors become
// `Seq`; type terms are already mathematical and are reused as they stand.
// ---------------------------------------------------------------------------

#[verifier::ext_equal]
pub enum LitV {
    Float(Seq<char>),
    Integer(Seq<char>),
}

#[verifier::ext_equal]
pub struct CallV {
    pub func: Seq<char>,
    pub args: Seq<ExprV>,
}

#[verifier::ext_equal]
pub enum ExprV {
    Call(CallV),
    Literal(LitV),
    Identifier(Seq<char>),
    AddressOf(Seq<char>, bool),
    DeRef(Seq<char>),
}

#[verifier::ext_equal]
pub struct AssignV {
    pub target: Seq<char>,
    pub value: ExprV,
    pub var_type: EmptyType,
    pub mutable: bool,
}

#[verifier::ext_equal]
pub struct LocalV {
    pub target: Seq<char>,
    pub value: ExprV,
}

#[verifier::ext_equal]
pub struct ArgV {
    pub name: Seq<char>,
    pub t: EmptyType,
}

#[verifier::ext_equal]
pub enum StmtV {
    Return(ExprV),
    If(ExprV, Seq<StmtV>),
    Assign(AssignV),
    ReAssign(LocalV),
    Call(CallV),
}

#[verifier::ext_equal]
pub struct FnDeclV {
    pub name: Seq<char>,
    pub args: Seq<ArgV>,
    pub ret_type: EmptyType,
    pub body: Seq<StmtV>,
}

pub open spec fn lit_view(l: Literal) -> LitV {
    match l {
        Literal::Float(f) => LitV::Float(f.token@),
        Literal::Integer(i) => LitV::Integer(i.token@),
    }
}

pub open spec fn expr_view(e: Expression) -> ExprV
    decreases e,
{
    match e {
        Expression::Call(c) => ExprV::Call(call_view(c)),
        Expression::Literal(l) => ExprV::Literal(lit_view(l)),
        Expression::Identifier(s) => ExprV::Identifier(s@),
        Expression::AddressOf(a) => ExprV::AddressOf(a.name@, a.mutable),
        Expression::DeRef(s) => ExprV::DeRef(s@),
    }
}

pub open spec fn call_view(c: Call) -> CallV
    decreases c,
{
    CallV { func: c.func@, args: exprs_view(c.args@) }
}

pub open spec fn exprs_view(es: Seq<Expression>) -> Seq<ExprV>
    decreases es,
{
    if es.len() == 0 {
        Seq::empty()
    } else {
        exprs_view(es.drop_last()).push(expr_view(es.last()))
    }
}

pub open spec fn assign_view(a: Assignment) -> AssignV {
    AssignV {
        target: a.target.ident@,
        value: expr_view(a.value),
        var_type: a.var_type,
        mutable: a.mutable,
    }
}

pub open spec fn local_view(l: Local) -> LocalV {
    LocalV { target: l.target.ident@, value: expr_view(l.value) }
}

pub open spec fn arg_view(a: FnArg) -> ArgV {
    ArgV { name: a.name@, t: a.t }
}

pub open spec fn args_view(args: Seq<FnArg>) -> Seq<ArgV> {
    args.map_values(|a: FnArg| arg_view(a))
}

pub open spec fn stmt_view(s: Stmt) -> StmtV
    decreases s,
{
    match s {
        Stmt::Return(e) => StmtV::Return(expr_view(e)),
        Stmt::If(c, body) => StmtV::If(expr_view(c), stmts_view(body@)),
        Stmt::Assign(a) => StmtV::Assign(assign_view(a)),
        Stmt::ReAssign(l) => StmtV::ReAssign(local_view(l)),
        Stmt::Call(c) => StmtV::Call(call_view(c)),
    }
}

pub open spec fn stmts_view(ss: Seq<Stmt>) -> Seq<StmtV>
    decreases ss,
{
    if ss.len() == 0 {
        Seq::empty()
    } else {
        stmts_view(ss.drop_last()).push(stmt_view(ss.last()))
    }
}

pub open spec fn decl_view(d: FnDecl) -> FnDeclV {
    FnDeclV {
        name: d.name@,
        args: args_view(d.args@),
        ret_type: d.ret_type,
        body: stmts_view(d.body@),
    }
}

pub open spec fn decls_view(ds: Seq<FnDecl>) -> Seq<FnDeclV> {
    ds.map_values(|d: FnDecl| decl_view(d))
}

// ---------------------------------------------------------------------------
// Structural sizes, used as termination measures by the translator.
// ---------------------------------------------------------------------------

pub open spec fn expr_size(e: Expression) -> nat
    decreases e,
{
    match e {
        Expression::Call(c) => 1 + call_size(c),
        Expression::Literal(_) => 1,
        Expression::Identifier(_) => 1,
        Expression::AddressOf(_) => 1,
        Expression::DeRef(_) => 1,
    }
}

pub open spec fn call_size(c: Call) -> nat
    decreases c,
{
    1 + exprs_size(c.args@)
}

pub open spec fn exprs_size(es: Seq<Expression>) -> nat
    decreases es,
{
    if es.len() == 0 {
        0
    } else {
        exprs_size(es.drop_last()) + expr_size(es.last())
    }
}

pub open spec fn stmt_size(s: Stmt) -> nat
    decreases s,
{
    match s {
        Stmt::Return(e) => 1 + expr_size(e),
        Stmt::If(c, b) => 1 + expr_size(c) + stmts_size(b@),
        Stmt::Assign(a) => 1 + expr_size(a.value),
        Stmt::ReAssign(l) => 1 + expr_size(l.value),
        Stmt::Call(c) => 1 + call_size(c),
    }
}

pub open spec fn stmts_size(ss: Seq<Stmt>) -> nat
    decreases ss,
{
    if ss.len() == 0 {
        0
    } else {
        stmts_size(ss.drop_last()) + stmt_size(ss.last())
    }
}

/// An element weighs no more than its list.
pub proof fn lemma_exprs_size_elem(es: Seq<Expression>, k: int)
    requires
        0 <= k < es.len(),
    ensures
        expr_size(es[k]) <= exprs_size(es),
    decreases es,
{
    lemma_exprs_size_nonneg(es.drop_last());
    if k < es.len() - 1 {
        lemma_exprs_size_elem(es.drop_last(), k);
        lemma_expr_size_pos(es.last());
    }
}

pub proof fn lemma_exprs_size_nonneg(es: Seq<Expression>)
    ensures
        exprs_size(es) >= 0,
{
}

pub proof fn lemma_expr_size_pos(e: Expression)
    ensures
        expr_size(e) >= 1,
{
}

pub proof fn lemma_stmt_size_pos(s: Stmt)
    ensures
        stmt_size(s) >= 1,
{
}

/// An element weighs no more than its list.
pub proof fn lemma_stmts_size_elem(ss: Seq<Stmt>, k: int)
    requires
        0 <= k < ss.len(),
    ensures
        stmt_size(ss[k]) <= stmts_size(ss),
    decreases ss,
{
    if k < ss.len() - 1 {
        lemma_stmts_size_elem(ss.drop_last(), k);
        lemma_stmt_size_pos(ss.last());
    }
}

/// `exprs_view` is indexwise `expr_view`.
pub proof fn lemma_exprs_view_len(es: Seq<Expression>)
    ensures
        exprs_view(es).len() == es.len(),
        forall|i: int| 0 <= i < es.len() ==> exprs_view(es)[i] == expr_view(es[i]),
    decreases es,
{
    if es.len() > 0 {
        lemma_exprs_view_len(es.drop_last());
    }
}

/// `stmts_view` is indexwise `stmt_view`.
pub proof fn lemma_stmts_view_len(ss: Seq<Stmt>)
    ensures
        stmts_view(ss).len() == ss.len(),
        forall|i: int| 0 <= i < ss.len() ==> stmts_view(ss)[i] == stmt_view(ss[i]),
    decreases ss,
{
    if ss.len() > 0 {
        lemma_stmts_view_len(ss.drop_last());
    }
}

} // verus!
